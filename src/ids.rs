use vstd::prelude::*;
use vstd::string::StrSliceExecFns;

verus! {

/// A forecast zone's code: an opaque, case-sensitive string.
#[derive(Debug)]
pub struct LocationZoneCode {
    pub code: String,
}

impl View for LocationZoneCode {
    type V = Seq<char>;

    open spec fn view(&self) -> Seq<char> {
        self.code@
    }
}

impl LocationZoneCode {
    /// A zone code; a code is never empty.
    pub fn new(code: String) -> (r: Self)
        requires
            code@.len() > 0,
        ensures
            r@ == code@,
    {
        LocationZoneCode { code }
    }

    pub fn as_str(&self) -> (r: &str)
        ensures
            r@ == self@,
    {
        self.code.as_str()
    }
}

impl Clone for LocationZoneCode {
    fn clone(&self) -> (r: Self)
        ensures
            r == *self,
    {
        LocationZoneCode { code: self.code.clone() }
    }
}

impl PartialEq for LocationZoneCode {
    fn eq(&self, other: &LocationZoneCode) -> (r: bool) {
        self.code == other.code
    }
}

impl vstd::std_specs::cmp::PartialEqSpecImpl for LocationZoneCode {
    open spec fn obeys_eq_spec() -> bool {
        true
    }

    open spec fn eq_spec(&self, other: &LocationZoneCode) -> bool {
        self@ == other@
    }
}

impl Eq for LocationZoneCode {
}

/// The identifier of one run of the "update weather" saga.
#[derive(Debug)]
pub struct UpdateWeatherId {
    pub id: String,
}

impl View for UpdateWeatherId {
    type V = Seq<char>;

    open spec fn view(&self) -> Seq<char> {
        self.id@
    }
}

/// Relies on cuid2::create_id: a fresh collision-resistant identifier, which starts
/// with one letter; its text depends on the clock and on chance.
#[verifier::external_body]
fn fresh_cuid() -> (r: String)
    ensures
        r@.len() > 0,
{
    cuid2::create_id()
}

impl UpdateWeatherId {
    pub fn new(id: String) -> (r: Self)
        ensures
            r@ == id@,
    {
        UpdateWeatherId { id }
    }

    /// A freshly generated identifier; nothing is known of its text but that it is
    /// not empty.
    pub fn next_id() -> (r: Self)
        ensures
            r@.len() > 0,
    {
        UpdateWeatherId { id: fresh_cuid() }
    }

    pub fn as_str(&self) -> (r: &str)
        ensures
            r@ == self@,
    {
        self.id.as_str()
    }
}

impl Clone for UpdateWeatherId {
    fn clone(&self) -> (r: Self)
        ensures
            r == *self,
    {
        UpdateWeatherId { id: self.id.clone() }
    }
}

impl PartialEq for UpdateWeatherId {
    fn eq(&self, other: &UpdateWeatherId) -> (r: bool) {
        self.id == other.id
    }
}

impl vstd::std_specs::cmp::PartialEqSpecImpl for UpdateWeatherId {
    open spec fn obeys_eq_spec() -> bool {
        true
    }

    open spec fn eq_spec(&self, other: &UpdateWeatherId) -> bool {
        self@ == other@
    }
}

impl Eq for UpdateWeatherId {
}

/// The kind of zone named by the path segment before a zone code in a zone URL.
#[derive(Debug, Clone, Copy, PartialEq, Eq, Structural)]
pub enum LocationZoneType {
    Public,
    County,
    Forecast,
}

/// The zone type a path segment names, if any.
pub open spec fn zone_type_of(s: Seq<char>) -> Option<LocationZoneType> {
    if s == "Public"@ {
        Some(LocationZoneType::Public)
    } else if s == "County"@ {
        Some(LocationZoneType::County)
    } else if s == "Forecast"@ {
        Some(LocationZoneType::Forecast)
    } else {
        None
    }
}

/// Whether two texts are equal, character by character.
pub(crate) fn same_text(a: &str, b: &str) -> (r: bool)
    ensures
        r == (a@ == b@),
{
    let n = a.unicode_len();
    if n != b.unicode_len() {
        return false;
    }
    let mut i: usize = 0;
    while i < n
        invariant
            i <= n,
            n == a@.len(),
            n == b@.len(),
            forall|j: int| 0 <= j < i ==> a@[j] == b@[j],
        decreases n - i,
    {
        if a.get_char(i) != b.get_char(i) {
            return false;
        }
        i = i + 1;
    }
    assert(a@ =~= b@);
    true
}

impl LocationZoneType {
    /// The zone type a path segment names exactly (`Public`, `County` or `Forecast`).
    pub fn from_segment(s: &str) -> (r: Option<LocationZoneType>)
        ensures
            r == zone_type_of(s@),
    {
        proof {
            reveal_strlit("Public");
            reveal_strlit("County");
            reveal_strlit("Forecast");
        }
        if same_text(s, "Public") {
            Some(LocationZoneType::Public)
        } else if same_text(s, "County") {
            Some(LocationZoneType::County)
        } else if same_text(s, "Forecast") {
            Some(LocationZoneType::Forecast)
        } else {
            None
        }
    }
}

/// Why a zone code could not be read.
#[derive(Debug)]
pub enum ZoneCodeError {
    /// The text is not a URL.
    UrlParse(String),
    /// The URL's path does not end in a zone type and a code.
    UrlNotZoneIdentifier(String),
    /// The code is empty.
    Empty,
}

/// The path segments of the URL that `text` is, as the url crate parses it: `None`
/// if it is no URL, `Some(None)` if the URL has no path segments.
pub uninterp spec fn url_path_of(text: Seq<char>) -> Option<Option<Seq<Seq<char>>>>;

/// Relies on url's `Url::parse` and `Url::path_segments`: parses `text` as a URL and
/// lists the segments of its path.
#[verifier::external_body]
fn url_path_segments(text: &str) -> (r: Option<Option<Vec<String>>>)
    ensures
        match r {
            None => url_path_of(text@) is None,
            Some(None) => url_path_of(text@) == Some(None::<Seq<Seq<char>>>),
            Some(Some(v)) => url_path_of(text@) == Some(Some(v@.map_values(|s: String| s@))),
        },
{
    match url::Url::parse(text) {
        Err(_) => None,
        Ok(u) => Some(u.path_segments().map(|segs| segs.map(|p| p.to_string()).collect())),
    }
}

/// What reading a zone URL gives: the zone type and code from the last two path
/// segments.
pub open spec fn zone_url_outcome(text: Seq<char>) -> Result<(Option<LocationZoneType>, Seq<char>), ()> {
    match url_path_of(text) {
        Some(Some(segs)) => if segs.len() >= 2 && segs[segs.len() - 1].len() > 0 {
            Ok((zone_type_of(segs[segs.len() - 2]), segs[segs.len() - 1]))
        } else {
            Err(())
        },
        _ => Err(()),
    }
}

pub open spec fn starts_with_http(s: Seq<char>) -> bool {
    s.len() >= 4 && s.subrange(0, 4) == "http"@
}

impl LocationZoneCode {
    /// Reads a zone URL whose last two path segments are `<zone-type>/<code>`.
    pub fn from_url(text: &str) -> (r: Result<(Option<LocationZoneType>, LocationZoneCode), ZoneCodeError>)
        ensures
            url_path_of(text@) is None <==> (r is Err && r->Err_0 is UrlParse),
            r is Ok <==> zone_url_outcome(text@) is Ok,
            r is Ok ==> r->Ok_0.0 == zone_url_outcome(text@)->Ok_0.0 && r->Ok_0.1@ == zone_url_outcome(text@)->Ok_0.1,
            r is Err ==> match r->Err_0 {
                ZoneCodeError::UrlParse(t) => t@ == text@,
                ZoneCodeError::UrlNotZoneIdentifier(t) => t@ == text@,
                ZoneCodeError::Empty => false,
            },
    {
        match url_path_segments(text) {
            None => Err(ZoneCodeError::UrlParse(text.to_owned())),
            Some(None) => Err(ZoneCodeError::UrlNotZoneIdentifier(text.to_owned())),
            Some(Some(segments)) => {
                let n = segments.len();
                if n < 2 || segments[n - 1].as_str().unicode_len() == 0 {
                    Err(ZoneCodeError::UrlNotZoneIdentifier(text.to_owned()))
                } else {
                    let zone_type = LocationZoneType::from_segment(segments[n - 2].as_str());
                    Ok((zone_type, LocationZoneCode::new(segments[n - 1].clone())))
                }
            },
        }
    }

    /// Reads a zone code: text starting with `http` is read as a zone URL, any other
    /// text is the code itself.
    pub fn parse(code_rep: String) -> (r: Result<LocationZoneCode, ZoneCodeError>)
        ensures
            code_rep@.len() == 0 ==> r matches Err(ZoneCodeError::Empty),
            !starts_with_http(code_rep@) && code_rep@.len() > 0 ==> r is Ok && r->Ok_0@ == code_rep@,
            starts_with_http(code_rep@) ==> (r is Ok <==> zone_url_outcome(code_rep@) is Ok),
            starts_with_http(code_rep@) && r is Ok ==> r->Ok_0@ == zone_url_outcome(code_rep@)->Ok_0.1,
    {
        proof {
            reveal_strlit("http");
        }
        let text = code_rep.as_str();
        let n = text.unicode_len();
        let is_url = n >= 4 && same_text(text.substring_char(0, 4), "http");
        if is_url {
            match LocationZoneCode::from_url(text) {
                Ok((_, code)) => Ok(code),
                Err(e) => Err(e),
            }
        } else if n == 0 {
            Err(ZoneCodeError::Empty)
        } else {
            Ok(LocationZoneCode::new(code_rep))
        }
    }
}

} // verus!

use vstd::prelude::*;
use rust_decimal::Decimal;

verus! {

/// A quality-control grade; from best to worst: V, G, S, C, Z, Q, T, B, X.
#[derive(Debug, Clone, Copy, PartialEq, Eq, Structural)]
pub enum QualityControl {
    V,
    G,
    S,
    C,
    Z,
    Q,
    T,
    B,
    X,
}

impl QualityControl {
    /// The grade's rank: 9 for V down to 1 for X.
    pub open spec fn spec_level(self) -> int {
        match self {
            QualityControl::V => 9,
            QualityControl::G => 8,
            QualityControl::S => 7,
            QualityControl::C => 6,
            QualityControl::Z => 5,
            QualityControl::Q => 4,
            QualityControl::T => 3,
            QualityControl::B => 2,
            QualityControl::X => 1,
        }
    }

    pub fn level(&self) -> (r: usize)
        ensures
            r == self.spec_level(),
    {
        match self {
            QualityControl::V => 9,
            QualityControl::G => 8,
            QualityControl::S => 7,
            QualityControl::C => 6,
            QualityControl::Z => 5,
            QualityControl::Q => 4,
            QualityControl::T => 3,
            QualityControl::B => 2,
            QualityControl::X => 1,
        }
    }
}

/// The largest mantissa a decimal can hold: 2^96 - 1.
pub const MAX_MANTISSA: i128 = 79228162514264337593543950335;

/// The largest scale a decimal can have.
pub const MAX_SCALE: u32 = 28;

pub open spec fn pow10(n: nat) -> int
    decreases n,
{
    if n == 0 {
        1
    } else {
        10 * pow10((n - 1) as nat)
    }
}

proof fn lemma_pow10_positive(n: nat)
    ensures
        pow10(n) > 0,
    decreases n,
{
    if n > 0 {
        lemma_pow10_positive((n - 1) as nat);
    }
}

/// A decimal number `mantissa / 10^scale`.
#[derive(Debug, Clone, Copy, PartialEq, Eq, Structural)]
pub struct DecimalValue {
    pub mantissa: i128,
    pub scale: u32,
}

impl DecimalValue {
    pub open spec fn valid(self) -> bool {
        self.scale <= MAX_SCALE && -MAX_MANTISSA <= self.mantissa <= MAX_MANTISSA
    }

    /// Whether `self` is at most `other` as numbers.
    pub open spec fn spec_le(self, other: DecimalValue) -> bool {
        self.mantissa * pow10(other.scale as nat) <= other.mantissa * pow10(self.scale as nat)
    }

    pub fn zero() -> (r: Self)
        ensures
            r.valid(),
            r == (DecimalValue { mantissa: 0, scale: 0 }),
    {
        DecimalValue { mantissa: 0, scale: 0 }
    }
}

proof fn lemma_le_transitive(a: DecimalValue, b: DecimalValue, c: DecimalValue)
    requires
        a.spec_le(b),
        b.spec_le(c),
    ensures
        a.spec_le(c),
{
    let pa = pow10(a.scale as nat);
    let pb = pow10(b.scale as nat);
    let pc = pow10(c.scale as nat);
    lemma_pow10_positive(a.scale as nat);
    lemma_pow10_positive(b.scale as nat);
    lemma_pow10_positive(c.scale as nat);
    let (am, bm, cm) = (a.mantissa as int, b.mantissa as int, c.mantissa as int);
    assert(am * pb <= bm * pa);
    assert(bm * pc <= cm * pb);
    assert(am * pc * pb <= cm * pa * pb) by (nonlinear_arith)
        requires
            am * pb <= bm * pa,
            bm * pc <= cm * pb,
            pa > 0,
            pb > 0,
            pc > 0,
    ;
    assert(am * pc <= cm * pa) by (nonlinear_arith)
        requires
            am * pc * pb <= cm * pa * pb,
            pb > 0,
    ;
}

/// What rust_decimal's saturating addition returns on two decimals given as
/// (mantissa, scale).
pub uninterp spec fn decimal_sum(am: int, ascale: int, bm: int, bscale: int) -> (int, int);

/// What rust_decimal's division returns on a decimal given as (mantissa, scale) and
/// a positive integer divisor.
pub uninterp spec fn decimal_quotient(m: int, scale: int, divisor: int) -> (int, int);

/// Relies on rust_decimal's `Ord` for `Decimal`, which compares values as numbers.
#[verifier::external_body]
fn decimal_le(a: &DecimalValue, b: &DecimalValue) -> (r: bool)
    requires
        a.valid(),
        b.valid(),
    ensures
        r == a.spec_le(*b),
{
    Decimal::from_i128_with_scale(a.mantissa, a.scale) <= Decimal::from_i128_with_scale(b.mantissa, b.scale)
}

/// Relies on rust_decimal's `Decimal::saturating_add`; its result is again a
/// decimal, whose mantissa and scale are in range.
#[verifier::external_body]
fn decimal_add(a: &DecimalValue, b: &DecimalValue) -> (r: DecimalValue)
    requires
        a.valid(),
        b.valid(),
    ensures
        r.valid(),
        (r.mantissa as int, r.scale as int) == decimal_sum(
            a.mantissa as int,
            a.scale as int,
            b.mantissa as int,
            b.scale as int,
        ),
{
    let x = Decimal::from_i128_with_scale(a.mantissa, a.scale);
    let y = Decimal::from_i128_with_scale(b.mantissa, b.scale);
    let z = x.saturating_add(y);
    DecimalValue { mantissa: z.mantissa(), scale: z.scale() }
}

/// Relies on rust_decimal's division of a `Decimal` by `Decimal::from(n)`, which
/// panics only on a zero divisor or on overflow (impossible for a divisor of one
/// or more); its result is again a decimal.
#[verifier::external_body]
fn decimal_div(a: &DecimalValue, n: usize) -> (r: DecimalValue)
    requires
        a.valid(),
        n > 0,
    ensures
        r.valid(),
        (r.mantissa as int, r.scale as int) == decimal_quotient(a.mantissa as int, a.scale as int, n as int),
{
    let x = Decimal::from_i128_with_scale(a.mantissa, a.scale);
    let z = x / Decimal::from(n);
    DecimalValue { mantissa: z.mantissa(), scale: z.scale() }
}

/// One reading of a quantitative property, as the provider reports it.
#[derive(Debug)]
pub struct PropertyDetail {
    pub value: Option<DecimalValue>,
    pub unit_code: String,
    pub quality_control: Option<QualityControl>,
}

impl Clone for PropertyDetail {
    fn clone(&self) -> (r: Self)
        ensures
            r == *self,
    {
        PropertyDetail { value: self.value, unit_code: self.unit_code.clone(), quality_control: self.quality_control }
    }
}

impl PropertyDetail {
    pub open spec fn valid(&self) -> bool {
        self.value is Some ==> self.value->Some_0.valid()
    }
}

/// A value with the grade it was read at.
pub type Reading = (DecimalValue, QualityControl);

/// The reading a detail stands for: only one with both a value and a grade counts.
pub open spec fn later_reading(d: PropertyDetail) -> Option<Reading> {
    match (d.value, d.quality_control) {
        (Some(v), Some(q)) => Some((v, q)),
        _ => None,
    }
}

/// The readings that a list of details stands for, in order.
pub open spec fn readings(ds: Seq<PropertyDetail>) -> Seq<Reading>
    decreases ds.len(),
{
    if ds.len() == 0 {
        seq![]
    } else {
        let p = readings(ds.drop_last());
        match later_reading(ds.last()) {
            Some(r) => p.push(r),
            None => p,
        }
    }
}

/// The unit of the first detail that stands for a reading.
pub open spec fn first_unit(ds: Seq<PropertyDetail>) -> Seq<char>
    decreases ds.len(),
{
    if ds.len() == 0 {
        seq![]
    } else if readings(ds.drop_last()).len() > 0 {
        first_unit(ds.drop_last())
    } else if later_reading(ds.last()) is Some {
        ds.last().unit_code@
    } else {
        seq![]
    }
}

/// The highest grade level among the readings.
pub open spec fn top_level(rs: Seq<Reading>) -> int
    decreases rs.len(),
{
    if rs.len() == 0 {
        0
    } else {
        let t = top_level(rs.drop_last());
        if rs.last().1.spec_level() > t {
            rs.last().1.spec_level()
        } else {
            t
        }
    }
}

/// The values read at grade level `g`, in order.
pub open spec fn graded(rs: Seq<Reading>, g: int) -> Seq<DecimalValue>
    decreases rs.len(),
{
    if rs.len() == 0 {
        seq![]
    } else {
        let p = graded(rs.drop_last(), g);
        if rs.last().1.spec_level() == g {
            p.push(rs.last().0)
        } else {
            p
        }
    }
}

/// The running saturating sum of the values, as (mantissa, scale).
pub open spec fn sum_of(vs: Seq<DecimalValue>) -> (int, int)
    decreases vs.len(),
{
    if vs.len() <= 1 {
        if vs.len() == 1 {
            (vs[0].mantissa as int, vs[0].scale as int)
        } else {
            (0, 0)
        }
    } else {
        let (m, s) = sum_of(vs.drop_last());
        decimal_sum(m, s, vs.last().mantissa as int, vs.last().scale as int)
    }
}

proof fn lemma_graded_above_top(rs: Seq<Reading>, g: int)
    requires
        g > top_level(rs),
    ensures
        graded(rs, g).len() == 0,
    decreases rs.len(),
{
    if rs.len() > 0 {
        lemma_graded_above_top(rs.drop_last(), g);
    }
}

proof fn lemma_graded_len(rs: Seq<Reading>, g: int)
    ensures
        graded(rs, g).len() <= rs.len(),
    decreases rs.len(),
{
    if rs.len() > 0 {
        lemma_graded_len(rs.drop_last(), g);
    }
}

proof fn lemma_readings_len(ds: Seq<PropertyDetail>)
    ensures
        readings(ds).len() <= ds.len(),
    decreases ds.len(),
{
    if ds.len() > 0 {
        lemma_readings_len(ds.drop_last());
    }
}

proof fn lemma_top_positive(rs: Seq<Reading>)
    requires
        rs.len() > 0,
    ensures
        top_level(rs) >= 1,
    decreases rs.len(),
{
    if rs.len() > 1 {
        lemma_top_positive(rs.drop_last());
    }
}

/// An aggregation of the readings of one property.
#[derive(Debug)]
pub struct QuantitativeAggregation {
    pub count: usize,
    pub value_sum: DecimalValue,
    pub max_value: DecimalValue,
    pub min_value: DecimalValue,
    pub unit_code: String,
    pub quality_control: QualityControl,
}

/// `a` aggregates exactly the readings `rs`: its grade is the highest among them, and
/// its count, sum, maximum and minimum are those of the values read at that grade.
pub open spec fn aggregates(a: QuantitativeAggregation, rs: Seq<Reading>) -> bool {
    let g = top_level(rs);
    let vs = graded(rs, g);
    &&& a.quality_control.spec_level() == g
    &&& a.count == vs.len()
    &&& (a.value_sum.mantissa as int, a.value_sum.scale as int) == sum_of(vs)
    &&& vs.contains(a.max_value)
    &&& vs.contains(a.min_value)
    &&& forall|i: int| 0 <= i < vs.len() ==> (#[trigger] vs[i]).spec_le(a.max_value)
    &&& forall|i: int| 0 <= i < vs.len() ==> a.min_value.spec_le(#[trigger] vs[i])
    &&& a.value_sum.valid() && a.max_value.valid() && a.min_value.valid()
}

impl QuantitativeAggregation {
    /// An aggregation of one detail that has both a value and a grade.
    pub fn new(detail: &PropertyDetail) -> (r: Self)
        requires
            detail.valid(),
            later_reading(*detail) is Some,
        ensures
            aggregates(r, seq![later_reading(*detail)->Some_0]),
            r.unit_code@ == detail.unit_code@,
    {
        let (value, quality) = match (detail.value, detail.quality_control) {
            (Some(v), Some(q)) => (v, q),
            _ => {
                proof {
                    assert(false);
                }
                (DecimalValue::zero(), QualityControl::X)
            },
        };
        let r = QuantitativeAggregation {
            count: 1,
            value_sum: value,
            max_value: value,
            min_value: value,
            unit_code: detail.unit_code.clone(),
            quality_control: quality,
        };
        proof {
            let rs = seq![later_reading(*detail)->Some_0];
            assert(later_reading(*detail)->Some_0 == (value, quality));
            assert(rs.drop_last() =~= Seq::<Reading>::empty());
            assert(rs.last() == (value, quality));
            assert(top_level(rs.drop_last()) == 0);
            assert(top_level(rs) == quality.spec_level());
            assert(graded(rs.drop_last(), quality.spec_level()) =~= Seq::<DecimalValue>::empty());
            assert(graded(rs, top_level(rs)) =~= seq![value]);
            assert(seq![value][0] == value);
            lemma_pow10_positive(value.scale as nat);
            assert(value.spec_le(value)) by (nonlinear_arith)
                requires
                    value.mantissa * pow10(value.scale as nat) == value.mantissa * pow10(value.scale as nat),
            ;
        }
        r
    }

    /// The average of the values at the aggregation's grade.
    pub fn average_value(&self) -> (r: DecimalValue)
        requires
            self.count > 0,
            self.value_sum.valid(),
        ensures
            r.valid(),
            (r.mantissa as int, r.scale as int) == decimal_quotient(
                self.value_sum.mantissa as int,
                self.value_sum.scale as int,
                self.count as int,
            ),
    {
        decimal_div(&self.value_sum, self.count)
    }

    /// Adds a later detail: a reading of a higher grade replaces the aggregation, one
    /// of the same grade joins it, one of a lower grade (or without a value or a
    /// grade) is ignored.
    pub fn add_detail(&mut self, detail: &PropertyDetail, Ghost(rs): Ghost<Seq<Reading>>)
        requires
            rs.len() > 0,
            aggregates(*old(self), rs),
            detail.valid(),
            old(self).count < usize::MAX,
        ensures
            aggregates(
                *final(self),
                match later_reading(*detail) {
                    Some(r) => rs.push(r),
                    None => rs,
                },
            ),
            final(self).unit_code == old(self).unit_code,
            later_reading(*detail) is None ==> *final(self) == *old(self),
            later_reading(*detail) is Some && later_reading(*detail)->Some_0.1.spec_level()
                < old(self).quality_control.spec_level() ==> *final(self) == *old(self),
            later_reading(*detail) is Some && later_reading(*detail)->Some_0.1.spec_level()
                > old(self).quality_control.spec_level() ==> {
                let (v, g) = later_reading(*detail)->Some_0;
                &&& final(self).count == 1
                &&& final(self).value_sum == v
                &&& final(self).max_value == v
                &&& final(self).min_value == v
                &&& final(self).quality_control == g
            },
            later_reading(*detail) is Some && later_reading(*detail)->Some_0.1.spec_level()
                == old(self).quality_control.spec_level() ==> {
                let (v, g) = later_reading(*detail)->Some_0;
                &&& final(self).count == old(self).count + 1
                &&& (final(self).value_sum.mantissa as int, final(self).value_sum.scale as int) == decimal_sum(
                    old(self).value_sum.mantissa as int,
                    old(self).value_sum.scale as int,
                    v.mantissa as int,
                    v.scale as int,
                )
                &&& final(self).max_value == if old(self).max_value.spec_le(v) && !v.spec_le(old(self).max_value) {
                    v
                } else {
                    old(self).max_value
                }
                &&& final(self).min_value == if v.spec_le(old(self).min_value) {
                    v
                } else {
                    old(self).min_value
                }
                &&& final(self).quality_control == old(self).quality_control
            },
    {
        proof {
            lemma_top_positive(rs);
        }
        let (value, quality) = match (detail.value, detail.quality_control) {
            (Some(v), Some(q)) => (v, q),
            _ => return ,
        };
        let ghost rs2 = rs.push((value, quality));
        let ghost g = top_level(rs);
        let ghost vs = graded(rs, g);
        assert(rs2.drop_last() =~= rs);
        let mine = self.quality_control.level();
        let theirs = quality.level();
        if theirs > mine {
            self.count = 1;
            self.value_sum = value;
            self.max_value = value;
            self.min_value = value;
            self.quality_control = quality;
            proof {
                lemma_graded_above_top(rs, quality.spec_level());
                assert(top_level(rs2) == quality.spec_level());
                assert(graded(rs2, quality.spec_level()) =~= seq![value]);
                assert(seq![value][0] == value);
                assert(sum_of(seq![value]) == (value.mantissa as int, value.scale as int));
                lemma_pow10_positive(value.scale as nat);
                assert(value.spec_le(value)) by (nonlinear_arith)
                    requires
                        value.mantissa * pow10(value.scale as nat) == value.mantissa * pow10(value.scale as nat),
                ;
            }
        } else if theirs == mine {
            self.count = self.count + 1;
            self.value_sum = decimal_add(&self.value_sum, &value);
            let old_max = self.max_value;
            let old_min = self.min_value;
            if decimal_le(&old_max, &value) && !decimal_le(&value, &old_max) {
                self.max_value = value;
            }
            if decimal_le(&value, &old_min) {
                self.min_value = value;
            }
            proof {
                let vs2 = graded(rs2, g);
                assert(top_level(rs2) == g);
                assert(vs2 =~= vs.push(value));
                assert(vs2.drop_last() =~= vs);
                lemma_pow10_positive(value.scale as nat);
                lemma_pow10_positive(old_max.scale as nat);
                lemma_pow10_positive(old_min.scale as nat);
                assert forall|i: int| 0 <= i < vs2.len() implies (#[trigger] vs2[i]).spec_le(self.max_value) by {
                    if i < vs.len() {
                        assert(vs[i].spec_le(old_max));
                        if self.max_value == value {
                            lemma_le_transitive(vs[i], old_max, value);
                        }
                    } else if self.max_value == old_max {
                        assert(value.spec_le(old_max)) by (nonlinear_arith)
                            requires
                                !(old_max.mantissa * pow10(value.scale as nat) <= value.mantissa * pow10(
                                    old_max.scale as nat,
                                )) || value.mantissa * pow10(old_max.scale as nat) <= old_max.mantissa * pow10(
                                    value.scale as nat,
                                ),
                        ;
                    } else {
                        assert(value.spec_le(value)) by (nonlinear_arith)
                            requires
                                value.mantissa * pow10(value.scale as nat) == value.mantissa * pow10(
                                    value.scale as nat,
                                ),
                        ;
                    }
                }
                assert forall|i: int| 0 <= i < vs2.len() implies self.min_value.spec_le(#[trigger] vs2[i]) by {
                    if i < vs.len() {
                        assert(old_min.spec_le(vs[i]));
                        if self.min_value == value {
                            lemma_le_transitive(value, old_min, vs[i]);
                        }
                    } else if self.min_value == old_min {
                        assert(old_min.spec_le(value));
                    } else {
                        assert(value.spec_le(value)) by (nonlinear_arith)
                            requires
                                value.mantissa * pow10(value.scale as nat) == value.mantissa * pow10(
                                    value.scale as nat,
                                ),
                        ;
                    }
                }
                assert(vs2.contains(self.max_value)) by {
                    if self.max_value == value {
                        assert(vs2[vs.len() as int] == value);
                    } else {
                        let k = choose|k: int| 0 <= k < vs.len() && vs[k] == old_max;
                        assert(vs2[k] == old_max);
                    }
                }
                assert(vs2.contains(self.min_value)) by {
                    if self.min_value == value {
                        assert(vs2[vs.len() as int] == value);
                    } else {
                        let k = choose|k: int| 0 <= k < vs.len() && vs[k] == old_min;
                        assert(vs2[k] == old_min);
                    }
                }
            }
        } else {
            proof {
                assert(top_level(rs2) == g);
                assert(graded(rs2, g) =~= vs);
            }
        }
    }
}

/// Aggregates the details of one property that have both a value and a grade: the
/// result is computed from the readings of the highest grade alone; `None` if no
/// detail has both.
pub fn aggregate(details: &Vec<PropertyDetail>) -> (r: Option<QuantitativeAggregation>)
    requires
        forall|i: int| 0 <= i < details@.len() ==> (#[trigger] details@[i]).valid(),
    ensures
        r is Some <==> readings(details@).len() > 0,
        r is Some ==> aggregates(r->Some_0, readings(details@)) && r->Some_0.unit_code@ == first_unit(details@),
{
    let mut agg: Option<QuantitativeAggregation> = None;
    let mut i: usize = 0;
    assert(details@.take(0) =~= Seq::<PropertyDetail>::empty());
    while i < details.len()
        invariant
            i <= details.len(),
            forall|j: int| 0 <= j < details@.len() ==> (#[trigger] details@[j]).valid(),
            agg is Some <==> readings(details@.take(i as int)).len() > 0,
            agg is Some ==> aggregates(agg->Some_0, readings(details@.take(i as int)))
                && agg->Some_0.unit_code@ == first_unit(details@.take(i as int)),
        decreases details.len() - i,
    {
        let ghost rs = readings(details@.take(i as int));
        proof {
            lemma_readings_len(details@.take(i as int));
            lemma_graded_len(rs, top_level(rs));
        }
        assert(details@.take(i + 1).drop_last() =~= details@.take(i as int));
        assert(details@.take(i + 1).last() == details@[i as int]);
        let d = &details[i];
        agg = match agg {
            None => {
                if d.value.is_some() && d.quality_control.is_some() {
                    let a = QuantitativeAggregation::new(d);
                    assert(rs =~= Seq::<Reading>::empty());
                    assert(readings(details@.take(i + 1)) =~= seq![later_reading(*d)->Some_0]);
                    Some(a)
                } else {
                    None
                }
            },
            Some(mut a) => {
                a.add_detail(d, Ghost(rs));
                Some(a)
            },
        };
        i = i + 1;
    }
    assert(details@.take(i as int) =~= details@);
    agg
}

/// A property's aggregated value: the average, minimum and maximum at the best grade.
#[derive(Debug)]
pub struct QuantitativeValue {
    pub value: DecimalValue,
    pub max_value: DecimalValue,
    pub min_value: DecimalValue,
    pub unit_code: String,
    pub quality_control: QualityControl,
}

impl QuantitativeAggregation {
    /// The aggregation as a value: its average, with its extremes, unit and grade.
    pub fn to_value(&self) -> (r: QuantitativeValue)
        requires
            self.count > 0,
            self.value_sum.valid(),
        ensures
            (r.value.mantissa as int, r.value.scale as int) == decimal_quotient(
                self.value_sum.mantissa as int,
                self.value_sum.scale as int,
                self.count as int,
            ),
            r.max_value == self.max_value,
            r.min_value == self.min_value,
            r.unit_code@ == self.unit_code@,
            r.quality_control == self.quality_control,
    {
        QuantitativeValue {
            value: self.average_value(),
            max_value: self.max_value,
            min_value: self.min_value,
            unit_code: self.unit_code.clone(),
            quality_control: self.quality_control,
        }
    }
}

/// The quantitative properties of an observation.
#[derive(Debug, Clone, Copy, PartialEq, Eq, Structural)]
pub enum QuantitativeProperty {
    Temperature,
    Dewpoint,
    WindDirection,
    WindSpeed,
    WindGust,
    BarometricPressure,
    SeaLevelPressure,
    Visibility,
    MaxTemperatureLast24Hours,
    MinTemperatureLast24Hours,
    PrecipitationLastHour,
    PrecipitationLast3Hours,
    PrecipitationLast6Hours,
    RelativeHumidity,
    WindChill,
    HeatIndex,
}

/// One property's value in a frame.
#[derive(Debug)]
pub struct PropertyValue {
    pub property: QuantitativeProperty,
    pub value: QuantitativeValue,
}

/// Weather observed in a zone: when (milliseconds since the Unix epoch), and one
/// aggregated value per property that was reported, each property once.
#[derive(Debug)]
pub struct WeatherFrame {
    pub timestamp: i64,
    pub values: Vec<PropertyValue>,
}

/// The details reported for property `p`, in order.
pub open spec fn details_for(rs: Seq<(QuantitativeProperty, PropertyDetail)>, p: QuantitativeProperty) -> Seq<
    PropertyDetail,
>
    decreases rs.len(),
{
    if rs.len() == 0 {
        seq![]
    } else {
        let d = details_for(rs.drop_last(), p);
        if rs.last().0 == p {
            d.push(rs.last().1)
        } else {
            d
        }
    }
}

/// The details of one property, copied out of the reports in order.
fn collect_details(reports: &Vec<(QuantitativeProperty, PropertyDetail)>, p: QuantitativeProperty) -> (r: Vec<
    PropertyDetail,
>)
    ensures
        r@ == details_for(reports@, p),
{
    let mut r: Vec<PropertyDetail> = Vec::new();
    let mut i: usize = 0;
    while i < reports.len()
        invariant
            i <= reports.len(),
            r@ == details_for(reports@.take(i as int), p),
        decreases reports.len() - i,
    {
        assert(reports@.take(i + 1).drop_last() =~= reports@.take(i as int));
        let (q, d) = &reports[i];
        if *q == p {
            r.push(d.clone());
        }
        i = i + 1;
    }
    assert(reports@.take(i as int) =~= reports@);
    r
}

pub open spec fn spec_property_at(k: int) -> QuantitativeProperty {
    if k == 0 {
        QuantitativeProperty::Temperature
    } else if k == 1 {
        QuantitativeProperty::Dewpoint
    } else if k == 2 {
        QuantitativeProperty::WindDirection
    } else if k == 3 {
        QuantitativeProperty::WindSpeed
    } else if k == 4 {
        QuantitativeProperty::WindGust
    } else if k == 5 {
        QuantitativeProperty::BarometricPressure
    } else if k == 6 {
        QuantitativeProperty::SeaLevelPressure
    } else if k == 7 {
        QuantitativeProperty::Visibility
    } else if k == 8 {
        QuantitativeProperty::MaxTemperatureLast24Hours
    } else if k == 9 {
        QuantitativeProperty::MinTemperatureLast24Hours
    } else if k == 10 {
        QuantitativeProperty::PrecipitationLastHour
    } else if k == 11 {
        QuantitativeProperty::PrecipitationLast3Hours
    } else if k == 12 {
        QuantitativeProperty::PrecipitationLast6Hours
    } else if k == 13 {
        QuantitativeProperty::RelativeHumidity
    } else if k == 14 {
        QuantitativeProperty::WindChill
    } else {
        QuantitativeProperty::HeatIndex
    }
}

/// The number of quantitative properties.
pub const PROPERTY_COUNT: usize = 16;

/// The properties in their declared order.
fn property_at(k: usize) -> (r: QuantitativeProperty)
    requires
        k < PROPERTY_COUNT,
    ensures
        r == spec_property_at(k as int),
{
    if k == 0 {
        QuantitativeProperty::Temperature
    } else if k == 1 {
        QuantitativeProperty::Dewpoint
    } else if k == 2 {
        QuantitativeProperty::WindDirection
    } else if k == 3 {
        QuantitativeProperty::WindSpeed
    } else if k == 4 {
        QuantitativeProperty::WindGust
    } else if k == 5 {
        QuantitativeProperty::BarometricPressure
    } else if k == 6 {
        QuantitativeProperty::SeaLevelPressure
    } else if k == 7 {
        QuantitativeProperty::Visibility
    } else if k == 8 {
        QuantitativeProperty::MaxTemperatureLast24Hours
    } else if k == 9 {
        QuantitativeProperty::MinTemperatureLast24Hours
    } else if k == 10 {
        QuantitativeProperty::PrecipitationLastHour
    } else if k == 11 {
        QuantitativeProperty::PrecipitationLast3Hours
    } else if k == 12 {
        QuantitativeProperty::PrecipitationLast6Hours
    } else if k == 13 {
        QuantitativeProperty::RelativeHumidity
    } else if k == 14 {
        QuantitativeProperty::WindChill
    } else {
        QuantitativeProperty::HeatIndex
    }
}

pub open spec fn property_index(p: QuantitativeProperty) -> int {
    match p {
        QuantitativeProperty::Temperature => 0,
        QuantitativeProperty::Dewpoint => 1,
        QuantitativeProperty::WindDirection => 2,
        QuantitativeProperty::WindSpeed => 3,
        QuantitativeProperty::WindGust => 4,
        QuantitativeProperty::BarometricPressure => 5,
        QuantitativeProperty::SeaLevelPressure => 6,
        QuantitativeProperty::Visibility => 7,
        QuantitativeProperty::MaxTemperatureLast24Hours => 8,
        QuantitativeProperty::MinTemperatureLast24Hours => 9,
        QuantitativeProperty::PrecipitationLastHour => 10,
        QuantitativeProperty::PrecipitationLast3Hours => 11,
        QuantitativeProperty::PrecipitationLast6Hours => 12,
        QuantitativeProperty::RelativeHumidity => 13,
        QuantitativeProperty::WindChill => 14,
        QuantitativeProperty::HeatIndex => 15,
    }
}

proof fn lemma_property_index(p: QuantitativeProperty, k: int)
    ensures
        0 <= property_index(p) < PROPERTY_COUNT,
        spec_property_at(property_index(p)) == p,
        0 <= k < PROPERTY_COUNT ==> property_index(spec_property_at(k)) == k,
{
}

/// `v` is the value of the details `ds` of one property: the average, extremes,
/// unit and grade of an aggregation of exactly their readings.
pub open spec fn value_of_details(v: QuantitativeValue, ds: Seq<PropertyDetail>) -> bool {
    exists|a: QuantitativeAggregation|
        aggregates(a, readings(ds)) && #[trigger] a.unit_code@ == first_unit(ds) && v.max_value == a.max_value
            && v.min_value == a.min_value && v.quality_control == a.quality_control && v.unit_code@ == a.unit_code@
            && (v.value.mantissa as int, v.value.scale as int) == decimal_quotient(
            a.value_sum.mantissa as int,
            a.value_sum.scale as int,
            a.count as int,
        )
}

impl WeatherFrame {
    /// The frame of an observation at `timestamp` whose features reported `reports`
    /// (property and detail, in feature order): one value per reported property, in
    /// the properties' declared order, each aggregated from that property's details.
    pub fn from_reports(timestamp: i64, reports: &Vec<(QuantitativeProperty, PropertyDetail)>) -> (r: WeatherFrame)
        requires
            forall|i: int| 0 <= i < reports@.len() ==> (#[trigger] reports@[i]).1.valid(),
        ensures
            r.timestamp == timestamp,
            forall|p: QuantitativeProperty|
                readings(details_for(reports@, p)).len() > 0 <==> exists|i: int|
                    0 <= i < r.values@.len() && (#[trigger] r.values@[i]).property == p,
            forall|i: int| 0 <= i < r.values@.len() ==> value_of_details(
                (#[trigger] r.values@[i]).value,
                details_for(reports@, r.values@[i].property),
            ),
            forall|i: int, j: int|
                0 <= i < j < r.values@.len() ==> (#[trigger] r.values@[i]).property != (#[trigger] r.values@[j]).property,
            forall|i: int, j: int|
                0 <= i < j < r.values@.len() ==> property_index((#[trigger] r.values@[i]).property) < property_index(
                    (#[trigger] r.values@[j]).property,
                ),
    {
        let mut values: Vec<PropertyValue> = Vec::new();
        let mut k: usize = 0;
        while k < PROPERTY_COUNT
            invariant
                k <= PROPERTY_COUNT,
                forall|i: int| 0 <= i < reports@.len() ==> (#[trigger] reports@[i]).1.valid(),
                forall|i: int| 0 <= i < values@.len() ==> property_index((#[trigger] values@[i]).property) < k,
                forall|p: QuantitativeProperty| property_index(p) < k ==> (readings(#[trigger] details_for(reports@, p)).len() > 0
                    <==> exists|i: int| 0 <= i < values@.len() && (#[trigger] values@[i]).property == p),
                forall|i: int| 0 <= i < values@.len() ==> value_of_details(
                    (#[trigger] values@[i]).value,
                    details_for(reports@, values@[i].property),
                ),
                forall|i: int, j: int|
                    0 <= i < j < values@.len() ==> (#[trigger] values@[i]).property != (#[trigger] values@[j]).property,
                forall|i: int, j: int|
                    0 <= i < j < values@.len() ==> property_index((#[trigger] values@[i]).property) < property_index(
                        (#[trigger] values@[j]).property,
                    ),
            decreases PROPERTY_COUNT - k,
        {
            let p = property_at(k);
            proof {
                lemma_property_index(p, k as int);
            }
            let details = collect_details(reports, p);
            assert forall|i: int| 0 <= i < details@.len() implies (#[trigger] details@[i]).valid() by {
                lemma_details_valid(reports@, p, i);
            }
            let ghost before = values@;
            if let Some(agg) = aggregate(&details) {
                let v = agg.to_value();
                assert(value_of_details(v, details_for(reports@, p)));
                values.push(PropertyValue { property: p, value: v });
                assert(values@[before.len() as int].property == p);
                assert forall|i: int| 0 <= i < before.len() implies #[trigger] values@[i] == before[i] by {}
            }
            assert forall|q: QuantitativeProperty| property_index(q) < k + 1 implies (readings(#[trigger] details_for(reports@, q)).len() > 0
                <==> exists|i: int| 0 <= i < values@.len() && (#[trigger] values@[i]).property == q) by {
                lemma_property_index(q, k as int);
                if exists|i: int| 0 <= i < values@.len() && (#[trigger] values@[i]).property == q {
                    let i = choose|i: int| 0 <= i < values@.len() && (#[trigger] values@[i]).property == q;
                    if i < before.len() {
                        assert(values@[i] == before[i]);
                    }
                }
                if property_index(q) < k && exists|i: int| 0 <= i < before.len() && (#[trigger] before[i]).property == q {
                    let i = choose|i: int| 0 <= i < before.len() && (#[trigger] before[i]).property == q;
                    assert(values@[i] == before[i]);
                }
            }
            k = k + 1;
        }
        assert forall|p: QuantitativeProperty|
            readings(details_for(reports@, p)).len() > 0 <==> exists|i: int| 0 <= i < values@.len() && (#[trigger] values@[i]).property == p by {
            lemma_property_index(p, 0);
        }
        WeatherFrame { timestamp, values }
    }
}

proof fn lemma_details_valid(rs: Seq<(QuantitativeProperty, PropertyDetail)>, p: QuantitativeProperty, i: int)
    requires
        forall|j: int| 0 <= j < rs.len() ==> (#[trigger] rs[j]).1.valid(),
        0 <= i < details_for(rs, p).len(),
    ensures
        details_for(rs, p)[i].valid(),
    decreases rs.len(),
{
    if rs.len() > 0 {
        let d = details_for(rs.drop_last(), p);
        assert forall|j: int| 0 <= j < rs.drop_last().len() implies (#[trigger] rs.drop_last()[j]).1.valid() by {
            assert(rs.drop_last()[j] == rs[j]);
        }
        if i < d.len() {
            lemma_details_valid(rs.drop_last(), p, i);
        }
    }
}

} // verus!

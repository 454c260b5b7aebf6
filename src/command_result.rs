use vstd::prelude::*;

verus! {

/// One of two values: a rejection message on the left, an error on the right.
#[derive(Debug, PartialEq, Eq)]
pub enum Either<L, R> {
    Left(L),
    Right(R),
}

/// The outcome of a command: its payload, a refusal with a message, or an error.
#[derive(Debug, PartialEq, Eq)]
pub enum CommandResult<T, E> {
    Accepted(T),
    Rejected(String),
    Failed(E),
}

impl<T, E> CommandResult<T, E> {
    /// Whether the result is `Accepted`.
    pub fn is_ok(&self) -> (r: bool)
        ensures
            r == (*self is Accepted),
    {
        match self {
            CommandResult::Accepted(_) => true,
            _ => false,
        }
    }

    /// Whether the result is `Accepted` and its value satisfies the predicate.
    pub fn is_ok_and<F: FnOnce(T) -> bool>(self, f: F) -> (r: bool)
        requires
            self is Accepted ==> f.requires((self->Accepted_0,)),
        ensures
            self is Accepted ==> f.ensures((self->Accepted_0,), r),
            !(self is Accepted) ==> !r,
    {
        match self {
            CommandResult::Accepted(x) => f(x),
            _ => false,
        }
    }

    /// Whether the result is `Rejected`.
    pub fn is_rejected(&self) -> (r: bool)
        ensures
            r == (*self is Rejected),
    {
        match self {
            CommandResult::Rejected(_) => true,
            _ => false,
        }
    }

    /// Whether the result is `Failed`.
    pub fn is_err(&self) -> (r: bool)
        ensures
            r == (*self is Failed),
    {
        match self {
            CommandResult::Failed(_) => true,
            _ => false,
        }
    }

    /// Whether the result is `Failed` and its error satisfies the predicate.
    pub fn is_err_and<F: FnOnce(E) -> bool>(self, f: F) -> (r: bool)
        requires
            self is Failed ==> f.requires((self->Failed_0,)),
        ensures
            self is Failed ==> f.ensures((self->Failed_0,), r),
            !(self is Failed) ==> !r,
    {
        match self {
            CommandResult::Failed(e) => f(e),
            _ => false,
        }
    }

    pub fn ok(payload: T) -> (r: Self)
        ensures
            r == CommandResult::<T, E>::Accepted(payload),
    {
        CommandResult::Accepted(payload)
    }

    pub fn rejected(message: String) -> (r: Self)
        ensures
            r == CommandResult::<T, E>::Rejected(message),
    {
        CommandResult::Rejected(message)
    }

    pub fn err(error: E) -> (r: Self)
        ensures
            r == CommandResult::<T, E>::Failed(error),
    {
        CommandResult::Failed(error)
    }

    /// The `Accepted` payload, if any.
    pub fn as_ok(self) -> (r: Option<T>)
        ensures
            r == (match self {
                CommandResult::Accepted(t) => Some(t),
                _ => None,
            }),
    {
        match self {
            CommandResult::Accepted(x) => Some(x),
            _ => None,
        }
    }

    /// The rejection message, if any.
    pub fn as_rejected(self) -> (r: Option<String>)
        ensures
            r == (match self {
                CommandResult::Rejected(m) => Some(m),
                _ => None,
            }),
    {
        match self {
            CommandResult::Rejected(msg) => Some(msg),
            _ => None,
        }
    }

    /// The error, if any.
    pub fn as_err(self) -> (r: Option<E>)
        ensures
            r == (match self {
                CommandResult::Failed(e) => Some(e),
                _ => None,
            }),
    {
        match self {
            CommandResult::Failed(x) => Some(x),
            _ => None,
        }
    }

    /// Applies `op` to an `Accepted` payload, leaving a rejection or an error untouched.
    pub fn map<U, F: FnOnce(T) -> U>(self, op: F) -> (r: CommandResult<U, E>)
        requires
            self is Accepted ==> op.requires((self->Accepted_0,)),
        ensures
            self is Accepted ==> r is Accepted && op.ensures((self->Accepted_0,), r->Accepted_0),
            self is Rejected ==> r == CommandResult::<U, E>::Rejected(self->Rejected_0),
            self is Failed ==> r == CommandResult::<U, E>::Failed(self->Failed_0),
    {
        match self {
            CommandResult::Accepted(t) => CommandResult::Accepted(op(t)),
            CommandResult::Rejected(msg) => CommandResult::Rejected(msg),
            CommandResult::Failed(e) => CommandResult::Failed(e),
        }
    }

    /// Applies `f` to an `Accepted` payload, or returns `default`.
    pub fn map_or<U, F: FnOnce(T) -> U>(self, default: U, f: F) -> (r: U)
        requires
            self is Accepted ==> f.requires((self->Accepted_0,)),
        ensures
            self is Accepted ==> f.ensures((self->Accepted_0,), r),
            !(self is Accepted) ==> r == default,
    {
        match self {
            CommandResult::Accepted(t) => f(t),
            _ => default,
        }
    }

    /// Applies `f` to an `Accepted` payload, or `default` to the rejection message
    /// (`Left`) or the error (`Right`).
    pub fn map_or_else<U, D: FnOnce(Either<String, E>) -> U, F: FnOnce(T) -> U>(self, default: D, f: F) -> (r: U)
        requires
            self is Accepted ==> f.requires((self->Accepted_0,)),
            self is Rejected ==> default.requires((Either::<String, E>::Left(self->Rejected_0),)),
            self is Failed ==> default.requires((Either::<String, E>::Right(self->Failed_0),)),
        ensures
            self is Accepted ==> f.ensures((self->Accepted_0,), r),
            self is Rejected ==> default.ensures((Either::<String, E>::Left(self->Rejected_0),), r),
            self is Failed ==> default.ensures((Either::<String, E>::Right(self->Failed_0),), r),
    {
        match self {
            CommandResult::Accepted(t) => f(t),
            CommandResult::Rejected(msg) => default(Either::Left(msg)),
            CommandResult::Failed(e) => default(Either::Right(e)),
        }
    }

    /// The `Accepted` payload, or what `op` computes from the rejection message
    /// (`Left`) or the error (`Right`).
    pub fn unwrap_or_else<F: FnOnce(Either<String, E>) -> T>(self, op: F) -> (r: T)
        requires
            self is Rejected ==> op.requires((Either::<String, E>::Left(self->Rejected_0),)),
            self is Failed ==> op.requires((Either::<String, E>::Right(self->Failed_0),)),
        ensures
            self is Accepted ==> r == self->Accepted_0,
            self is Rejected ==> op.ensures((Either::<String, E>::Left(self->Rejected_0),), r),
            self is Failed ==> op.ensures((Either::<String, E>::Right(self->Failed_0),), r),
    {
        match self {
            CommandResult::Accepted(t) => t,
            CommandResult::Rejected(msg) => op(Either::Left(msg)),
            CommandResult::Failed(e) => op(Either::Right(e)),
        }
    }

    /// Applies `op` to an error, leaving a payload or a rejection untouched.
    pub fn map_err<G, O: FnOnce(E) -> G>(self, op: O) -> (r: CommandResult<T, G>)
        requires
            self is Failed ==> op.requires((self->Failed_0,)),
        ensures
            self is Failed ==> r is Failed && op.ensures((self->Failed_0,), r->Failed_0),
            self is Accepted ==> r == CommandResult::<T, G>::Accepted(self->Accepted_0),
            self is Rejected ==> r == CommandResult::<T, G>::Rejected(self->Rejected_0),
    {
        match self {
            CommandResult::Accepted(t) => CommandResult::Accepted(t),
            CommandResult::Rejected(msg) => CommandResult::Rejected(msg),
            CommandResult::Failed(e) => CommandResult::Failed(op(e)),
        }
    }

    /// Calls `f` on a reference to an `Accepted` payload and hands the result back unchanged.
    pub fn inspect<F: FnOnce(&T)>(self, f: F) -> (r: Self)
        requires
            self is Accepted ==> f.requires((&self->Accepted_0,)),
        ensures
            r == self,
    {
        if let CommandResult::Accepted(t) = &self {
            f(t);
        }
        self
    }

    /// The `Accepted` payload; only defined on `Accepted`.
    pub fn unwrap(self) -> (r: T)
        requires
            self is Accepted,
        ensures
            r == self->Accepted_0,
    {
        match self {
            CommandResult::Accepted(t) => t,
            _ => {
                proof {
                    assert(false);
                }
                unreached()
            },
        }
    }

    /// The `Accepted` payload, or the type's default value.
    pub fn unwrap_or_default(self) -> (r: T)
        where
            T: Default,
        ensures
            self is Accepted ==> r == self->Accepted_0,
            !(self is Accepted) ==> T::default.ensures((), r),
    {
        match self {
            CommandResult::Accepted(x) => x,
            _ => T::default(),
        }
    }

    /// The `Accepted` payload, or `default`.
    pub fn unwrap_or(self, default: T) -> (r: T)
        ensures
            self is Accepted ==> r == self->Accepted_0,
            !(self is Accepted) ==> r == default,
    {
        match self {
            CommandResult::Accepted(t) => t,
            _ => default,
        }
    }
}

/// The payloads of `results` in order if every one is `Ok`; otherwise the first error.
pub fn transpose_result<T, E>(results: Vec<Result<T, E>>) -> (r: Result<Vec<T>, E>)
    ensures
        r is Ok <==> forall|i: int| 0 <= i < results@.len() ==> (#[trigger] results@[i]) is Ok,
        r is Ok ==> r->Ok_0@.len() == results@.len() && forall|i: int|
            0 <= i < results@.len() ==> (#[trigger] r->Ok_0@[i]) == results@[i]->Ok_0,
        r is Err ==> exists|k: int|
            0 <= k < results@.len() && results@[k] == Err::<T, E>(r->Err_0) && forall|i: int|
                0 <= i < k ==> (#[trigger] results@[i]) is Ok,
{
    let ghost all = results@;
    let mut rest = results;
    let mut acc: Vec<T> = Vec::new();
    let mut k: usize = 0;
    let n = rest.len();
    while rest.len() > 0
        invariant
            all == results@,
            all.len() == n,
            k + rest@.len() == all.len(),
            rest@ == all.subrange(k as int, all.len() as int),
            acc@.len() == k,
            forall|i: int| 0 <= i < k ==> (#[trigger] all[i]) is Ok && acc@[i] == all[i]->Ok_0,
        decreases rest@.len(),
    {
        let next = rest.remove(0);
        assert(next == all[k as int]);
        match next {
            Ok(value) => {
                acc.push(value);
            },
            Err(e) => {
                assert(all[k as int] == Err::<T, E>(e));
                assert(!(all[k as int] is Ok));
                return Err(e);
            },
        }
        assert(rest@ =~= all.subrange(k + 1, all.len() as int));
        k = k + 1;
    }
    Ok(acc)
}

} // verus!

//! Typed values of a content-management API and their coercion from loosely
//! typed input.
use vstd::prelude::*;

pub mod clock;
pub mod coerce;
pub mod collection;
pub mod double;
pub mod error;
pub mod field_value;
pub mod filter;
pub mod id;
pub mod json;
pub mod link;
pub mod number_order;
pub mod object_id;
pub mod request;
pub mod response;
pub mod schema;
pub mod text;
pub mod tz;
pub mod upload;
pub mod value;
pub mod wire;

verus! {

/// One of two things.
#[derive(Debug, Clone, Copy, PartialEq, Eq)]
pub enum Either<L, R> {
    Left(L),
    Right(R),
}

impl<L, R> Either<L, R> {
    /// The left thing. Only for a value that is known to be `Left`.
    pub fn unwrap_left(self) -> (r: L)
        requires
            self is Left,
        ensures
            self == Either::<L, R>::Left(r),
    {
        match self {
            Either::Left(v) => v,
            Either::Right(_) => unreached(),
        }
    }

    /// The right thing. Only for a value that is known to be `Right`.
    pub fn unwrap_right(self) -> (r: R)
        requires
            self is Right,
        ensures
            self == Either::<L, R>::Right(r),
    {
        match self {
            Either::Left(_) => unreached(),
            Either::Right(v) => v,
        }
    }
}

/// One thing or a list of things.
#[derive(Debug, Clone)]
pub enum SingleOrMulti<V> {
    Single(V),
    Multiple(Vec<V>),
}

impl<V> SingleOrMulti<V> {
    /// Whether `func` may be called on everything that `self` holds.
    pub open spec fn accepted_by<R, E, F: Fn(V) -> Result<R, E>>(self, func: F) -> bool {
        match self {
            SingleOrMulti::Single(v) => func.requires((v,)),
            SingleOrMulti::Multiple(items) => forall|i: int|
                0 <= i < items@.len() ==> func.requires((#[trigger] items@[i],)),
        }
    }

    /// Whether `r` is what mapping `func` over `self` may give: the results
    /// in the shape and order of `self` where `func` succeeds on everything,
    /// else the failure of `func` on the first thing that it fails on.
    pub open spec fn mapped_by<R, E, F: Fn(V) -> Result<R, E>>(
        self,
        func: F,
        r: Result<SingleOrMulti<R>, E>,
    ) -> bool {
        match self {
            SingleOrMulti::Single(v) => match r {
                Ok(SingleOrMulti::Single(x)) => func.ensures((v,), Ok(x)),
                Ok(SingleOrMulti::Multiple(_)) => false,
                Err(e) => func.ensures((v,), Err(e)),
            },
            SingleOrMulti::Multiple(items) => match r {
                Ok(SingleOrMulti::Single(_)) => false,
                Ok(SingleOrMulti::Multiple(out)) => {
                    &&& out@.len() == items@.len()
                    &&& forall|i: int|
                        0 <= i < items@.len() ==> func.ensures((items@[i],), Ok(#[trigger] out@[i]))
                },
                Err(e) => exists|k: int, done: Seq<R>|
                    {
                        &&& 0 <= k < items@.len()
                        &&& done.len() == k
                        &&& func.ensures((items@[k],), Err(e))
                        &&& forall|j: int|
                            0 <= j < k ==> func.ensures((items@[j],), Ok(#[trigger] done[j]))
                    },
            },
        }
    }

    /// Maps `func` over what `self` holds, in order, and stops at its first
    /// failure.
    pub fn try_map<R, E, F: Fn(V) -> Result<R, E>>(self, func: F) -> (r: Result<
        SingleOrMulti<R>,
        E,
    >)
        requires
            self.accepted_by(func),
        ensures
            self.mapped_by(func, r),
    {
        match self {
            SingleOrMulti::Single(v) => match func(v) {
                Ok(x) => Ok(SingleOrMulti::Single(x)),
                Err(e) => Err(e),
            },
            SingleOrMulti::Multiple(items) => {
                let ghost all = items@;
                let mut out: Vec<R> = Vec::new();
                for v in it: items
                    invariant
                        it.seq() == all,
                        self matches SingleOrMulti::Multiple(whole) && whole@ == all,
                        out@.len() == it.index(),
                        forall|i: int| 0 <= i < all.len() ==> func.requires((#[trigger] all[i],)),
                        forall|j: int|
                            0 <= j < it.index() ==> func.ensures((all[j],), Ok(#[trigger] out@[j])),
                {
                    let ghost k = it.index() as int;
                    assert(v == all[k]);
                    match func(v) {
                        Ok(x) => out.push(x),
                        Err(e) => {
                            assert(func.ensures((all[k],), Err(e)));
                            let ghost done = out@;
                            assert(0 <= k < all.len() && done.len() == k && func.ensures(
                                (all[k],),
                                Err(e),
                            ) && forall|j: int|
                                0 <= j < k ==> func.ensures((all[j],), Ok(#[trigger] done[j])));
                            return Err(e);
                        },
                    }
                }
                Ok(SingleOrMulti::Multiple(out))
            },
        }
    }
}

impl<V> From<V> for SingleOrMulti<V> {
    /// The one thing.
    fn from(value: V) -> (r: SingleOrMulti<V>) {
        SingleOrMulti::Single(value)
    }
}

impl<V> vstd::std_specs::convert::FromSpecImpl<V> for SingleOrMulti<V> {
    open spec fn obeys_from_spec() -> bool {
        true
    }

    open spec fn from_spec(value: V) -> SingleOrMulti<V> {
        SingleOrMulti::Single(value)
    }
}

impl<V> From<Vec<V>> for SingleOrMulti<V> {
    /// The list of things.
    fn from(value: Vec<V>) -> (r: SingleOrMulti<V>) {
        SingleOrMulti::Multiple(value)
    }
}

impl<V> vstd::std_specs::convert::FromSpecImpl<Vec<V>> for SingleOrMulti<V> {
    open spec fn obeys_from_spec() -> bool {
        true
    }

    open spec fn from_spec(value: Vec<V>) -> SingleOrMulti<V> {
        SingleOrMulti::Multiple(value)
    }
}

} // verus!


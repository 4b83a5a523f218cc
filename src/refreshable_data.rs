//! A value that knows how old it is and which request would refresh it.
use crate::codec::Request;
use vstd::prelude::*;

verus! {

/// What a refresh policy may tell apart in a present value.
#[derive(Clone, Copy, Debug, PartialEq, Eq, Structural)]
pub enum Shape {
    /// A value without variants that matter to refreshing.
    Plain,
    /// A colour of a single-zone device.
    SingleZone,
    /// The colours of a multizone device.
    MultiZone,
}

/// A value whose shape a refresh policy can read.
pub trait Shaped {
    spec fn shape_spec(&self) -> Shape;

    fn shape(&self) -> (s: Shape)
        ensures
            s == self.shape_spec(),
    ;
}

/// Which request refreshes a value.
#[derive(Clone, Copy, Debug, PartialEq, Eq, Structural)]
pub enum Refresh {
    /// Always the same request.
    Fixed(Request),
    /// A request that depends on the value held: one for each shape, and one
    /// for no value at all.
    ByShape {
        absent: Option<Request>,
        plain: Option<Request>,
        single_zone: Option<Request>,
        multi_zone: Option<Request>,
    },
}

impl Refresh {
    /// The request for a value of the given shape, or for no value.
    pub open spec fn request_for(self, shape: Option<Shape>) -> Option<Request> {
        match self {
            Refresh::Fixed(req) => Some(req),
            Refresh::ByShape { absent, plain, single_zone, multi_zone } => match shape {
                None => absent,
                Some(Shape::Plain) => plain,
                Some(Shape::SingleZone) => single_zone,
                Some(Shape::MultiZone) => multi_zone,
            },
        }
    }

    pub fn request(&self, shape: Option<Shape>) -> (r: Option<Request>)
        ensures
            r == self.request_for(shape),
    {
        match self {
            Refresh::Fixed(req) => Some(*req),
            Refresh::ByShape { absent, plain, single_zone, multi_zone } => match shape {
                None => *absent,
                Some(Shape::Plain) => *plain,
                Some(Shape::SingleZone) => *single_zone,
                Some(Shape::MultiZone) => *multi_zone,
            },
        }
    }
}

/// Milliseconds from `since` to `now`; zero where `now` is earlier.
pub open spec fn elapsed(since: u64, now: u64) -> nat {
    if now >= since {
        (now - since) as nat
    } else {
        0
    }
}

/// A value that is refreshed when it is missing or older than its maximum age.
///
/// Times are milliseconds on a clock of the caller's choosing that does not go
/// backwards.
#[derive(Debug)]
pub struct RefreshableData<T> {
    pub data: Option<T>,
    /// No maximum age means the value is never refreshed.
    pub max_age: Option<u64>,
    pub last_updated: u64,
    pub refresh: Refresh,
}

impl<T: Shaped> RefreshableData<T> {
    /// Whether a check at `now` would ask for a refresh.
    pub open spec fn is_stale(&self, now: u64) -> bool {
        match self.max_age {
            None => false,
            Some(max_age) => self.data is None || elapsed(self.last_updated, now) > max_age,
        }
    }

    /// The request that the policy gives for the value held.
    pub open spec fn policy_request(&self) -> Option<Request> {
        self.refresh.request_for(
            match self.data {
                Some(v) => Some(v.shape_spec()),
                None => None,
            },
        )
    }

    /// What a check at `now` returns.
    pub open spec fn check_result(&self, now: u64) -> Option<Request> {
        if self.is_stale(now) {
            self.policy_request()
        } else {
            None
        }
    }

    /// The field after a check at `now`: issuing a request resets its time.
    pub open spec fn checked(self, now: u64) -> Self {
        if self.check_result(now) is Some {
            RefreshableData { last_updated: now, ..self }
        } else {
            self
        }
    }

    /// The field after `update(v, now)`.
    pub open spec fn updated(self, v: T, now: u64) -> Self {
        RefreshableData { data: Some(v), last_updated: now, ..self }
    }

    /// An empty field, made at `now`, that is refreshed with `message` once
    /// older than `max_age`.
    pub fn with_config(max_age: u64, message: Request, now: u64) -> (r: Self)
        ensures
            r == (RefreshableData::<T> {
                data: None,
                max_age: Some(max_age),
                last_updated: now,
                refresh: Refresh::Fixed(message),
            }),
    {
        Self::with_dyn_config(max_age, Refresh::Fixed(message), now)
    }

    /// An empty field, made at `now`, that is refreshed as `refresh` says once
    /// older than `max_age`. The policy is not consulted here.
    pub fn with_dyn_config(max_age: u64, refresh: Refresh, now: u64) -> (r: Self)
        ensures
            r == (RefreshableData::<T> { data: None, max_age: Some(max_age), last_updated: now, refresh }),
    {
        RefreshableData { data: None, max_age: Some(max_age), last_updated: now, refresh }
    }

    pub fn needs_update(&self, now: u64) -> (r: bool)
        ensures
            r == self.is_stale(now),
    {
        match self.max_age {
            None => false,
            Some(max_age) => {
                let age: u64 = if now >= self.last_updated {
                    now - self.last_updated
                } else {
                    0
                };
                self.data.is_none() || age > max_age
            },
        }
    }

    /// The request to send at `now`, if the value is stale. Issuing one counts
    /// as a refresh: the field is then fresh until `max_age` has passed again.
    pub fn check(&mut self, now: u64) -> (r: Option<Request>)
        ensures
            r == old(self).check_result(now),
            *final(self) == old(self).checked(now),
    {
        if !self.needs_update(now) {
            return None;
        }
        let shape = match &self.data {
            Some(v) => Some(v.shape()),
            None => None,
        };
        let r = self.refresh.request(shape);
        if r.is_some() {
            self.last_updated = now;
        }
        r
    }

    /// Replaces the value, received at `now`.
    pub fn update(&mut self, data: T, now: u64)
        ensures
            *final(self) == old(self).updated(data, now),
    {
        self.data = Some(data);
        self.last_updated = now;
    }

    pub fn as_ref(&self) -> (r: Option<&T>)
        ensures
            r is Some <==> self.data is Some,
            r matches Some(v) ==> *v == self.data->0,
    {
        self.data.as_ref()
    }

    /// Sets the maximum age; none stops refreshing.
    pub fn keep_updated(&mut self, max_age: Option<u64>)
        ensures
            *final(self) == (RefreshableData { max_age, ..*old(self) }),
    {
        self.max_age = max_age;
    }

    pub fn get(&mut self) -> (r: Option<&T>)
        ensures
            *final(self) == *old(self),
            r is Some <==> old(self).data is Some,
            r matches Some(v) ==> *v == old(self).data->0,
    {
        self.data.as_ref()
    }

    pub fn get_blocking(&self) -> (r: T)
        where
            T: Clone,
        requires
            self.data is Some,
        ensures
            cloned(self.data->0, r),
    {
        self.data.as_ref().cloned().unwrap()
    }
}

/// A field that holds no value yet is stale on every check while it has a
/// maximum age, and its check gives the policy's request for no value; with a
/// fixed request that is always a request.
pub proof fn lemma_empty_field_requests<T: Shaped>(f: RefreshableData<T>, now: u64)
    requires
        f.data is None,
        f.max_age is Some,
    ensures
        f.is_stale(now),
        f.check_result(now) == f.refresh.request_for(None),
        f.refresh is Fixed ==> f.check_result(now) is Some,
{
}

/// After `update(v)` at time `t` with maximum age `d`, a check at any time in
/// `[t, t + d]` gives nothing, and a check at any later time gives the
/// policy's request for `v`.
pub proof fn lemma_fresh_until_max_age<T: Shaped>(
    f: RefreshableData<T>,
    v: T,
    t: u64,
    d: u64,
    now: u64,
)
    requires
        f.max_age == Some(d),
        t <= now,
    ensures
        now <= t + d ==> f.updated(v, t).check_result(now) is None,
        now > t + d ==> f.updated(v, t).check_result(now) == f.refresh.request_for(
            Some(v.shape_spec()),
        ),
{
}

/// Applying the same value twice leaves the same value and the same policy;
/// only the time of the last update moves.
pub proof fn lemma_update_twice<T: Shaped>(f: RefreshableData<T>, v: T, t1: u64, t2: u64)
    ensures
        f.updated(v, t1).updated(v, t2).data == f.updated(v, t1).data,
        f.updated(v, t1).updated(v, t2).max_age == f.max_age,
        f.updated(v, t1).updated(v, t2).refresh == f.refresh,
        f.updated(v, t1).updated(v, t2).last_updated == t2,
        f.updated(v, t1).updated(v, t2) == f.updated(v, t2),
{
}

} // verus!

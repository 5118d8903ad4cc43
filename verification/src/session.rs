//! Session configuration: which measurement types are requested and the
//! negotiated acceleration parameters.
//!
//! The requested set is an option of an ordered list with at most two
//! distinct entries (the device's practical concurrent-stream limit). An
//! empty set is the distinct "unset" state `None`, never `Some` of an empty
//! list.

use vstd::prelude::*;

use crate::{Error, H10MeasurementType, PolarResult};

verus! {

/// The requested types after adding `t`: starts a one-element list when none
/// was set, appends when there is room and `t` is not already the first
/// entry, and otherwise leaves the set unchanged.
pub open spec fn spec_push(
    types: Option<Seq<H10MeasurementType>>,
    t: H10MeasurementType,
) -> Option<Seq<H10MeasurementType>> {
    match types {
        None => Some(seq![t]),
        Some(s) => if s.len() != 2 && s[0] != t {
            Some(s.push(t))
        } else {
            Some(s)
        },
    }
}

/// The requested types after removing `t`: every occurrence of `t` leaves,
/// and a set that becomes empty collapses to the unset state. Stated over
/// the well-formed states, whose lists hold one or two distinct entries.
pub open spec fn spec_pop(
    types: Option<Seq<H10MeasurementType>>,
    t: H10MeasurementType,
) -> Option<Seq<H10MeasurementType>>
    recommends
        types_wf(types),
{
    match types {
        None => None,
        Some(s) => if s.len() == 1 {
            if s[0] == t {
                None
            } else {
                Some(s)
            }
        } else {
            if s[0] == t && s[1] == t {
                None
            } else if s[0] == t {
                Some(seq![s[1]])
            } else if s[1] == t {
                Some(seq![s[0]])
            } else {
                Some(s)
            }
        },
    }
}

/// The range values, in G, that the device accepts for acceleration.
pub open spec fn legal_range(v: u8) -> bool {
    v == 2 || v == 4 || v == 8
}

/// The sample rates, in Hz, that the device accepts for acceleration.
pub open spec fn legal_sample_rate(v: u8) -> bool {
    v == 25 || v == 50 || v == 100 || v == 200
}

/// A well-formed requested set: unset, or one or two distinct entries.
pub open spec fn types_wf(types: Option<Seq<H10MeasurementType>>) -> bool {
    types matches Some(s) ==> 1 <= s.len() <= 2 && (s.len() == 2 ==> s[0] != s[1])
}

/// Whether the requested set contains the acceleration type.
pub open spec fn types_contain(
    types: Option<Seq<H10MeasurementType>>,
    t: H10MeasurementType,
) -> bool {
    types matches Some(s) && s.contains(t)
}

/// Adding a type twice changes nothing beyond adding it once.
pub proof fn lemma_push_idempotent(
    types: Option<Seq<H10MeasurementType>>,
    t: H10MeasurementType,
)
    requires
        types_wf(types),
    ensures
        spec_push(spec_push(types, t), t) == spec_push(types, t),
{
    match types {
        None => {
            assert(spec_push(types, t)->Some_0[0] == t);
        },
        Some(s) => {},
    }
}

/// Pushing keeps the set well formed and never grows it past two entries;
/// in particular a third distinct type is refused.
pub proof fn lemma_push_cap(types: Option<Seq<H10MeasurementType>>, t: H10MeasurementType)
    requires
        types_wf(types),
    ensures
        types_wf(spec_push(types, t)),
        spec_push(types, t)->Some_0.len() <= 2,
        types matches Some(s) && s.len() == 2 ==> spec_push(types, t) == types,
{
}

/// Popping keeps the set well formed and never leaves an empty list behind:
/// removing the last requested type collapses the state to unset.
pub proof fn lemma_pop_never_empty(
    types: Option<Seq<H10MeasurementType>>,
    t: H10MeasurementType,
)
    requires
        types_wf(types),
    ensures
        types_wf(spec_pop(types, t)),
        spec_pop(types, t) matches Some(s) ==> s.len() >= 1,
        types == Some(seq![t]) ==> spec_pop(types, t) is None,
{
}

/// Session configuration for a device connection: the requested measurement
/// types and the negotiated acceleration range and sample rate.
#[derive(Debug)]
pub struct Session {
    /// Requested measurement types, `None` when nothing is requested.
    data_type: Option<Vec<H10MeasurementType>>,
    /// Acceleration range: 2, 4 or 8 G.
    range: u8,
    /// Acceleration sample rate in Hz: 25, 50, 100 or 200.
    sample_rate: u8,
}

impl Session {
    /// The requested measurement types.
    pub closed spec fn spec_types(&self) -> Option<Seq<H10MeasurementType>> {
        match self.data_type {
            Some(v) => Some(v@),
            None => None,
        }
    }

    /// The negotiated acceleration range in G.
    pub closed spec fn spec_range(&self) -> u8 {
        self.range
    }

    /// The negotiated acceleration sample rate in Hz.
    pub closed spec fn spec_sample_rate(&self) -> u8 {
        self.sample_rate
    }

    /// A well-formed session holds a well-formed requested set.
    pub open spec fn wf(&self) -> bool {
        types_wf(self.spec_types())
    }

    /// Create a session with nothing requested and the default acceleration
    /// parameters: the full 8 G range at 200 Hz.
    pub fn new() -> (r: Session)
        ensures
            r.wf(),
            r.spec_types() is None,
            r.spec_range() == 8,
            r.spec_sample_rate() == 200,
    {
        Session { data_type: None, range: 8, sample_rate: 200 }
    }

    /// Add a measurement type to the requested set, unless it is already
    /// present or two types are already requested.
    pub fn data_type_push(&mut self, data_type: H10MeasurementType)
        requires
            old(self).wf(),
        ensures
            final(self).wf(),
            final(self).spec_types() == spec_push(old(self).spec_types(), data_type),
            final(self).spec_range() == old(self).spec_range(),
            final(self).spec_sample_rate() == old(self).spec_sample_rate(),
    {
        match &self.data_type {
            Some(types) => {
                if types.len() != 2 && types[0] != data_type {
                    let first = types[0];
                    self.data_type = Some(vec![first, data_type]);
                    assert(self.spec_types()->Some_0 =~= old(self).spec_types()->Some_0.push(
                        data_type,
                    ));
                }
            },
            None => {
                self.data_type = Some(vec![data_type]);
                assert(self.spec_types()->Some_0 =~= seq![data_type]);
            },
        }
    }

    /// Remove a measurement type from the requested set; removing the last
    /// one collapses the session to the unset state.
    pub fn data_type_pop(&mut self, data_type: H10MeasurementType)
        requires
            old(self).wf(),
        ensures
            final(self).wf(),
            final(self).spec_types() == spec_pop(old(self).spec_types(), data_type),
            final(self).spec_range() == old(self).spec_range(),
            final(self).spec_sample_rate() == old(self).spec_sample_rate(),
    {
        match &self.data_type {
            Some(types) => {
                if types.len() == 1 {
                    if types[0] == data_type {
                        self.data_type = None;
                    }
                } else {
                    let a = types[0];
                    let b = types[1];
                    if a == data_type && b == data_type {
                        self.data_type = None;
                    } else if a == data_type {
                        self.data_type = Some(vec![b]);
                        assert(self.spec_types()->Some_0 =~= seq![b]);
                    } else if b == data_type {
                        self.data_type = Some(vec![a]);
                        assert(self.spec_types()->Some_0 =~= seq![a]);
                    }
                }
            },
            None => {},
        }
    }

    /// The requested measurement types, `None` when nothing is requested.
    pub fn data_type(&self) -> (r: &Option<Vec<H10MeasurementType>>)
        ensures
            r is Some <==> self.spec_types() is Some,
            r matches Some(v) ==> Some(v@) == self.spec_types(),
    {
        &self.data_type
    }

    /// Set the range for acceleration data. Accepted only when the value is
    /// one of 2, 4 or 8 G and acceleration is among the requested types.
    pub fn range(&mut self, range: u8) -> (r: PolarResult<()>)
        requires
            old(self).wf(),
        ensures
            final(self).wf(),
            final(self).spec_types() == old(self).spec_types(),
            final(self).spec_sample_rate() == old(self).spec_sample_rate(),
            !legal_range(range) ==> r == Err::<(), Error>(Error::InvalidData),
            legal_range(range) && old(self).spec_types() is None ==> r == Err::<(), Error>(
                Error::NoDataType,
            ),
            legal_range(range) && old(self).spec_types() is Some && !types_contain(
                old(self).spec_types(),
                H10MeasurementType::Acc,
            ) ==> r == Err::<(), Error>(Error::WrongType),
            legal_range(range) && types_contain(old(self).spec_types(), H10MeasurementType::Acc)
                ==> r == Ok::<(), Error>(()) && final(self).spec_range() == range,
            r is Err ==> final(self).spec_range() == old(self).spec_range(),
    {
        if range == 2 || range == 4 || range == 8 {
            match &self.data_type {
                Some(types) => {
                    if Self::contains_acc(types) {
                        self.range = range;
                        Ok(())
                    } else {
                        Err(Error::WrongType)
                    }
                },
                None => Err(Error::NoDataType),
            }
        } else {
            Err(Error::InvalidData)
        }
    }

    /// Set the sample rate for acceleration data. Accepted only when the
    /// value is one of 25, 50, 100 or 200 Hz and acceleration is among the
    /// requested types.
    pub fn sample_rate(&mut self, rate: u8) -> (r: PolarResult<()>)
        requires
            old(self).wf(),
        ensures
            final(self).wf(),
            final(self).spec_types() == old(self).spec_types(),
            final(self).spec_range() == old(self).spec_range(),
            !legal_sample_rate(rate) ==> r == Err::<(), Error>(Error::InvalidData),
            legal_sample_rate(rate) && old(self).spec_types() is None ==> r == Err::<(), Error>(
                Error::NoDataType,
            ),
            legal_sample_rate(rate) && old(self).spec_types() is Some && !types_contain(
                old(self).spec_types(),
                H10MeasurementType::Acc,
            ) ==> r == Err::<(), Error>(Error::WrongType),
            legal_sample_rate(rate) && types_contain(
                old(self).spec_types(),
                H10MeasurementType::Acc,
            ) ==> r == Ok::<(), Error>(()) && final(self).spec_sample_rate() == rate,
            r is Err ==> final(self).spec_sample_rate() == old(self).spec_sample_rate(),
    {
        if rate == 25 || rate == 50 || rate == 100 || rate == 200 {
            match &self.data_type {
                Some(types) => {
                    if Self::contains_acc(types) {
                        self.sample_rate = rate;
                        Ok(())
                    } else {
                        Err(Error::WrongType)
                    }
                },
                None => Err(Error::NoDataType),
            }
        } else {
            Err(Error::InvalidData)
        }
    }

    /// The negotiated acceleration range in G.
    pub fn current_range(&self) -> (r: u8)
        ensures
            r == self.spec_range(),
    {
        self.range
    }

    /// The negotiated acceleration sample rate in Hz.
    pub fn current_sample_rate(&self) -> (r: u8)
        ensures
            r == self.spec_sample_rate(),
    {
        self.sample_rate
    }

    /// Whether the list contains the acceleration type.
    fn contains_acc(types: &Vec<H10MeasurementType>) -> (r: bool)
        ensures
            r == types@.contains(H10MeasurementType::Acc),
    {
        let mut i: usize = 0;
        while i < types.len()
            invariant
                i <= types@.len(),
                forall|j: int| 0 <= j < i ==> types@[j] != H10MeasurementType::Acc,
            decreases types@.len() - i,
        {
            if types[i] == H10MeasurementType::Acc {
                return true;
            }
            i += 1;
        }
        false
    }
}

} // verus!

use crate::status::Status;
use vstd::prelude::*;

verus! {

/// A field of the host that all VMs of one VM ID share, under a key. Any
/// of them can read or write it. It cannot cross VM IDs.
#[derive(Clone)]
pub struct SharedData(pub String);

impl SharedData {
    /// The value in the host's answer to a read: none where the field was
    /// never set or the host refused.
    pub open spec fn value_of(answer: Result<(Option<Vec<u8>>, Option<u32>), Status>) -> Option<
        Vec<u8>,
    > {
        match answer {
            Ok(found) => found.0,
            Err(_) => None,
        }
    }

    /// The value and the check-and-set number in the host's answer to a
    /// read: neither where the host refused.
    pub open spec fn value_with_cas_of(
        answer: Result<(Option<Vec<u8>>, Option<u32>), Status>,
    ) -> (Option<Vec<u8>>, Option<u32>) {
        match answer {
            Ok(found) => found,
            Err(_) => (None, None),
        }
    }

    /// Create a new/reference an existing SharedData.
    pub fn from_key(key: String) -> (r: Self)
        ensures
            r.0 == key,
    {
        SharedData(key)
    }

    /// Gets the value of the SharedData, through `get_shared_data`.
    /// Doesn't return the check-and-set (CAS) number.
    pub fn get<F: FnOnce(&str) -> Result<(Option<Vec<u8>>, Option<u32>), Status>>(
        &self,
        get_shared_data: F,
    ) -> (r: Option<Vec<u8>>)
        requires
            forall|key: &str| key@ == self.0@ ==> call_requires(get_shared_data, (key,)),
        ensures
            exists|key: &str, answer: Result<(Option<Vec<u8>>, Option<u32>), Status>|
                key@ == self.0@ && #[trigger] call_ensures(get_shared_data, (key,), answer) && r
                    == Self::value_of(answer),
    {
        match get_shared_data(self.0.as_str()) {
            Ok(found) => found.0,
            Err(_) => None,
        }
    }

    /// Gets the value and the check-and-set (CAS) number of the
    /// SharedData, through `get_shared_data`. CAS is `None` when the value
    /// has never been set before.
    pub fn get_with_cas<F: FnOnce(&str) -> Result<(Option<Vec<u8>>, Option<u32>), Status>>(
        &self,
        get_shared_data: F,
    ) -> (r: (Option<Vec<u8>>, Option<u32>))
        requires
            forall|key: &str| key@ == self.0@ ==> call_requires(get_shared_data, (key,)),
        ensures
            exists|key: &str, answer: Result<(Option<Vec<u8>>, Option<u32>), Status>|
                key@ == self.0@ && #[trigger] call_ensures(get_shared_data, (key,), answer) && r
                    == Self::value_with_cas_of(answer),
    {
        match get_shared_data(self.0.as_str()) {
            Ok(found) => found,
            Err(_) => (None, None),
        }
    }

    /// Unconditionally sets the value of this SharedData, through
    /// `set_shared_data`, and hands the answer of the host back.
    pub fn set<F: FnOnce(&str, Option<&[u8]>, Option<u32>) -> Result<(), Status>>(
        &self,
        value: &[u8],
        set_shared_data: F,
    ) -> (r: Result<(), Status>)
        requires
            forall|key: &str|
                key@ == self.0@ ==> call_requires(
                    set_shared_data,
                    (key, Some(value), None::<u32>),
                ),
        ensures
            exists|key: &str|
                key@ == self.0@ && #[trigger] call_ensures(
                    set_shared_data,
                    (key, Some(value), None::<u32>),
                    r,
                ),
    {
        set_shared_data(self.0.as_str(), Some(value), None)
    }

    /// Sets the value of this SharedData, through `set_shared_data`, only
    /// when the given `cas` number matches the one returned by a previous
    /// `get_with_cas`. The result says whether the value was set.
    pub fn set_with_cas<F: FnOnce(&str, Option<&[u8]>, Option<u32>) -> Result<(), Status>>(
        &self,
        value: &[u8],
        cas: u32,
        set_shared_data: F,
    ) -> (r: bool)
        requires
            forall|key: &str|
                key@ == self.0@ ==> call_requires(set_shared_data, (key, Some(value), Some(cas))),
        ensures
            exists|key: &str, answer: Result<(), Status>|
                key@ == self.0@ && #[trigger] call_ensures(
                    set_shared_data,
                    (key, Some(value), Some(cas)),
                    answer,
                ) && r == answer is Ok,
    {
        match set_shared_data(self.0.as_str(), Some(value), Some(cas)) {
            Ok(()) => true,
            Err(_) => false,
        }
    }
}

} // verus!

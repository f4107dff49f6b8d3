//! How the decoder learns the datatype of a field from its tag.

use crate::dt::DataType;
use std::collections::HashMap;
use vstd::prelude::*;

verus! {

/// A rule that gives the datatype of the fields with a given tag, for the
/// tags that it knows.
pub trait TagLookup {
    /// The datatype of the fields with tag `tag`, if the tag is known.
    spec fn spec_lookup(&self, tag: u32) -> Option<DataType>;

    /// Returns the datatype of the fields with tag `tag`, or `None` if the
    /// tag is unknown.
    fn lookup(&self, tag: u32) -> (datatype: Option<DataType>)
        ensures
            datatype == self.spec_lookup(tag),
    ;
}

/// A [`TagLookup`] for messages of one version of the protocol: one table
/// from tags to datatypes.
pub struct TagLookupSingleAppVersion {
    datatypes: HashMap<u32, DataType>,
}

impl View for TagLookupSingleAppVersion {
    type V = Map<u32, DataType>;

    closed spec fn view(&self) -> Map<u32, DataType> {
        self.datatypes@
    }
}

impl TagLookupSingleAppVersion {
    /// Creates a table that knows no tag.
    pub fn new() -> (table: Self)
        ensures
            table@ == Map::<u32, DataType>::empty(),
    {
        TagLookupSingleAppVersion { datatypes: HashMap::new() }
    }

    /// Makes `datatype` the datatype of the fields with tag `tag`, in place of
    /// the one that the table held for that tag, if any.
    pub fn insert(&mut self, tag: u32, datatype: DataType)
        ensures
            final(self)@ == old(self)@.insert(tag, datatype),
    {
        self.datatypes.insert(tag, datatype);
    }
}

impl TagLookup for TagLookupSingleAppVersion {
    open spec fn spec_lookup(&self, tag: u32) -> Option<DataType> {
        if self@.contains_key(tag) {
            Some(self@[tag])
        } else {
            None
        }
    }

    fn lookup(&self, tag: u32) -> (datatype: Option<DataType>) {
        match self.datatypes.get(&tag) {
            Some(datatype) => Some(*datatype),
            None => None,
        }
    }
}

} // verus!

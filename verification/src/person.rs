//! The record kept for a person that an account is related to.

use vstd::prelude::*;
use vstd::string::StringSliceAdditionalSpecFns;
use vstd::string::StrSliceExecFns;
use crate::bytes::{copy_bytes, same_bytes};

verus! {

/// What a [`PersonInfo`] holds, as mathematical values.
pub struct PersonInfoView {
    /// The person's name, as bytes.
    pub name: Seq<u8>,
    /// The number of the person's identity card, as bytes.
    pub id_card: Seq<u8>,
    /// Height in millimetres.
    pub height: u16,
    /// Weight in grams.
    pub weight: u16,
    /// The chronic condition's code, as the bytes of its text.
    pub chronic: Seq<u8>,
}

/// The record of one person. The registry stores it as given and validates
/// nothing across its fields.
#[derive(Debug)]
pub struct PersonInfo {
    name: Vec<u8>,
    id_card: Vec<u8>,
    height: u16,
    weight: u16,
    chronic: Vec<u8>,
}

impl View for PersonInfo {
    type V = PersonInfoView;

    closed spec fn view(&self) -> PersonInfoView {
        PersonInfoView {
            name: self.name@,
            id_card: self.id_card@,
            height: self.height,
            weight: self.weight,
            chronic: self.chronic@,
        }
    }
}

impl Clone for PersonInfo {
    /// A record with the same contents.
    fn clone(&self) -> (copy: Self)
        ensures
            copy@ == self@,
    {
        PersonInfo {
            name: copy_bytes(&self.name),
            id_card: copy_bytes(&self.id_card),
            height: self.height,
            weight: self.weight,
            chronic: copy_bytes(&self.chronic),
        }
    }
}

impl PersonInfo {
    /// A record of the five given values.
    pub fn new(name: Vec<u8>, id_card: Vec<u8>, height: u16, weight: u16, chronic: Vec<u8>) -> (info:
        Self)
        ensures
            info@ == (PersonInfoView {
                name: name@,
                id_card: id_card@,
                height,
                weight,
                chronic: chronic@,
            }),
    {
        PersonInfo { name, id_card, height, weight, chronic }
    }

    /// The person's name.
    pub fn name(&self) -> (name: &Vec<u8>)
        ensures
            name@ == self@.name,
    {
        &self.name
    }

    /// The number of the person's identity card.
    pub fn id_card(&self) -> (id_card: &Vec<u8>)
        ensures
            id_card@ == self@.id_card,
    {
        &self.id_card
    }

    /// Height in millimetres.
    pub fn height(&self) -> (height: u16)
        ensures
            height == self@.height,
    {
        self.height
    }

    /// Weight in grams.
    pub fn weight(&self) -> (weight: u16)
        ensures
            weight == self@.weight,
    {
        self.weight
    }

    /// The chronic condition's code, as the bytes of its text.
    pub fn chronic(&self) -> (chronic: &Vec<u8>)
        ensures
            chronic@ == self@.chronic,
    {
        &self.chronic
    }
}

impl Default for PersonInfo {
    /// The record with empty texts and zero measures.
    fn default() -> (info: Self)
        ensures
            info@ == (PersonInfoView {
                name: Seq::empty(),
                id_card: Seq::empty(),
                height: 0,
                weight: 0,
                chronic: Seq::empty(),
            }),
    {
        PersonInfo { name: Vec::new(), id_card: Vec::new(), height: 0, weight: 0, chronic: Vec::new() }
    }
}

/// Turns a text field into the bytes that a record keeps for it: the UTF-8
/// encoding of the text, nothing added and nothing dropped.
pub fn de_string_to_bytes(s: &str) -> (bytes: Vec<u8>)
    ensures
        bytes@ == s.spec_bytes(),
{
    s.as_bytes_vec()
}

impl PartialEq for PersonInfo {
    /// Two records are equal when all five of their values are.
    fn eq(&self, other: &Self) -> (same: bool) {
        same_bytes(&self.name, &other.name) && same_bytes(&self.id_card, &other.id_card)
            && self.height == other.height && self.weight == other.weight && same_bytes(
            &self.chronic,
            &other.chronic,
        )
    }
}

impl vstd::std_specs::cmp::PartialEqSpecImpl for PersonInfo {
    open spec fn obeys_eq_spec() -> bool {
        true
    }

    open spec fn eq_spec(&self, other: &Self) -> bool {
        self@ == other@
    }
}

} // verus!

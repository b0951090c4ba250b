//! What an input method reports while text is composed.
use vstd::prelude::*;

verus! {

/// The state of one character of a composition.
#[derive(Clone, Copy, PartialEq, Eq, Structural, Debug)]
pub enum Attribute {
    Input,
    TargetConverted,
    Converted,
    TargetNotConverted,
    Error,
    FixedConverted,
}

/// The attribute that the input method reports with byte `v`, if `v` names one.
pub open spec fn spec_attribute_of(v: u8) -> Option<Attribute> {
    match v {
        0 => Some(Attribute::Input),
        1 => Some(Attribute::TargetConverted),
        2 => Some(Attribute::Converted),
        3 => Some(Attribute::TargetNotConverted),
        4 => Some(Attribute::Error),
        5 => Some(Attribute::FixedConverted),
        _ => None,
    }
}

impl Attribute {
    /// The attribute that the input method reports with byte `v`, if `v` names one.
    pub fn from_code(v: u8) -> (r: Option<Attribute>)
        ensures
            r == spec_attribute_of(v),
    {
        match v {
            0 => Some(Attribute::Input),
            1 => Some(Attribute::TargetConverted),
            2 => Some(Attribute::Converted),
            3 => Some(Attribute::TargetNotConverted),
            4 => Some(Attribute::Error),
            5 => Some(Attribute::FixedConverted),
            _ => None,
        }
    }
}

/// The attributes of a composition, one byte each, when every byte names one.
pub fn attributes_from_codes(codes: &[u8]) -> (r: Option<Vec<Attribute>>)
    ensures
        (forall|i: int| 0 <= i < codes@.len() ==> spec_attribute_of(#[trigger] codes@[i]) is Some)
            ==> (r matches Some(v) && v@.len() == codes@.len() && forall|i: int|
            0 <= i < codes@.len() ==> Some(#[trigger] v@[i]) == spec_attribute_of(codes@[i])),
        !(forall|i: int| 0 <= i < codes@.len() ==> spec_attribute_of(#[trigger] codes@[i]) is Some)
            ==> r is None,
{
    let mut out: Vec<Attribute> = Vec::new();
    let mut k: usize = 0;
    while k < codes.len()
        invariant
            k <= codes@.len(),
            out@.len() == k,
            forall|i: int| 0 <= i < k ==> Some(#[trigger] out@[i]) == spec_attribute_of(codes@[i]),
        decreases codes@.len() - k,
    {
        match Attribute::from_code(codes[k]) {
            Some(a) => out.push(a),
            None => return None,
        }
        k = k + 1;
    }
    assert forall|i: int| 0 <= i < codes@.len() implies spec_attribute_of(
        #[trigger] codes@[i],
    ) is Some by {
        assert(Some(out@[i]) == spec_attribute_of(codes@[i]));
    }
    Some(out)
}

/// One character of a composition with its attribute.
#[derive(Clone, Copy, Debug)]
pub struct CompositionChar {
    pub c: char,
    pub attr: Attribute,
}

impl CompositionChar {
    pub fn new(c: char, attr: Attribute) -> (r: CompositionChar)
        ensures
            r.c == c,
            r.attr == attr,
    {
        CompositionChar { c, attr }
    }
}

/// The string being composed, character by character.
#[derive(Clone, Debug)]
pub struct Composition(Vec<CompositionChar>);

impl Composition {
    /// The characters of the composition, in order.
    pub closed spec fn view(&self) -> Seq<CompositionChar> {
        self.0@
    }

    /// Pairs the characters of `text` with `attrs`, as far as both reach.
        pub fn new(text: &[char], attrs: &[Attribute]) -> (r: Composition)
        ensures
            r.view().len() == if text@.len() <= attrs@.len() {
                text@.len()
            } else {
                attrs@.len()
            },
            forall|i: int|
                0 <= i < r.view().len() ==> (#[trigger] r.view()[i]).c == text@[i]
                    && r.view()[i].attr == attrs@[i],
    {
        let n: usize = if text.len() <= attrs.len() {
            text.len()
        } else {
            attrs.len()
        };
        let mut out: Vec<CompositionChar> = Vec::new();
        let mut k: usize = 0;
        while k < n
            invariant
                n <= text@.len(),
                n <= attrs@.len(),
                k <= n,
                out@.len() == k,
                forall|i: int|
                    0 <= i < k ==> (#[trigger] out@[i]).c == text@[i] && out@[i].attr == attrs@[i],
            decreases n - k,
        {
            let item = CompositionChar::new(text[k], attrs[k]);
            out.push(item);
            k = k + 1;
        }
        Composition(out)
    }

    pub fn is_empty(&self) -> (r: bool)
        ensures
            r == (self.view().len() == 0),
    {
        self.0.len() == 0
    }

    pub fn len(&self) -> (r: usize)
        ensures
            r == self.view().len(),
    {
        self.0.len()
    }

    /// The character at `index`.
    pub fn get(&self, index: usize) -> (r: CompositionChar)
        requires
            index < self.view().len(),
        ensures
            r == self.view()[index as int],
    {
        self.0[index]
    }

    /// Walks the characters of the composition, in order.
    pub fn iter(&self) -> (r: std::slice::Iter<'_, CompositionChar>) {
        self.0.iter()
    }

    /// The characters of the composition, in order.
    pub fn as_slice(&self) -> (r: &[CompositionChar])
        ensures
            r@ == self.view(),
    {
        self.0.as_slice()
    }
}

/// The conversion candidates that the input method offers, and which one is selected.
#[derive(Clone, Debug)]
pub struct CandidateList {
    list: Vec<String>,
    selection: usize,
}

impl CandidateList {
    /// The candidates, in order.
    pub closed spec fn view(&self) -> Seq<String> {
        self.list@
    }

    /// The position of the selected candidate.
    pub closed spec fn spec_selection(&self) -> usize {
        self.selection
    }

    pub fn new(list: Vec<String>, selection: usize) -> (r: CandidateList)
        ensures
            r.view() == list@,
            r.spec_selection() == selection,
    {
        CandidateList { list, selection }
    }

    pub fn is_empty(&self) -> (r: bool)
        ensures
            r == (self.view().len() == 0),
    {
        self.list.len() == 0
    }

    pub fn len(&self) -> (r: usize)
        ensures
            r == self.view().len(),
    {
        self.list.len()
    }

    /// The candidate at `index`.
    pub fn get(&self, index: usize) -> (r: &str)
        requires
            index < self.view().len(),
        ensures
            r@ == self.view()[index as int]@,
    {
        self.list[index].as_str()
    }

    pub fn selection(&self) -> (r: usize)
        ensures
            r == self.spec_selection(),
    {
        self.selection
    }

    /// Walks the candidates, in order.
    pub fn iter(&self) -> (r: std::slice::Iter<'_, String>) {
        self.list.iter()
    }

    /// The candidates, in order.
    pub fn as_slice(&self) -> (r: &[String])
        ensures
            r@ == self.view(),
    {
        self.list.as_slice()
    }
}

/// A part of the composition state that can be asked of the input method.
#[derive(Clone, Debug)]
pub enum CompositionString {
    CompStr(String),
    CompAttr(Vec<Attribute>),
    ResultStr(String),
}

} // verus!

//! Raw arguments: a map from field names to loosely typed values, as a
//! caller sends them.

use vstd::prelude::*;
use crate::text::same_text;

verus! {

/// One element of a list: a text, or a value of any other kind.
#[derive(Clone, Debug, PartialEq, Eq)]
pub enum ArgItem {
    Text(String),
    Other,
}

/// A loosely typed value. Numbers and objects are kept by kind only: no
/// field takes one.
#[derive(Clone, Debug, PartialEq, Eq)]
pub enum ArgValue {
    Null,
    Bool(bool),
    Number,
    Text(String),
    List(Vec<ArgItem>),
    Object,
}

/// What an `ArgValue` denotes; a list holds `Some(text)` for each text and
/// `None` for each other element.
pub ghost enum ArgValueView {
    Null,
    Bool(bool),
    Number,
    Text(Seq<char>),
    List(Seq<Option<Seq<char>>>),
    Object,
}

impl View for ArgItem {
    type V = Option<Seq<char>>;

    open spec fn view(&self) -> Option<Seq<char>> {
        match self {
            ArgItem::Text(s) => Some(s@),
            ArgItem::Other => None,
        }
    }
}

impl View for ArgValue {
    type V = ArgValueView;

    open spec fn view(&self) -> ArgValueView {
        match self {
            ArgValue::Null => ArgValueView::Null,
            ArgValue::Bool(b) => ArgValueView::Bool(*b),
            ArgValue::Number => ArgValueView::Number,
            ArgValue::Text(s) => ArgValueView::Text(s@),
            ArgValue::List(items) => ArgValueView::List(items@.map_values(|i: ArgItem| i@)),
            ArgValue::Object => ArgValueView::Object,
        }
    }
}

/// One key with its value.
#[derive(Clone, Debug, PartialEq, Eq)]
pub struct ArgEntry {
    pub key: String,
    pub value: ArgValue,
}

/// The raw arguments of one call. A key that is inserted again takes the
/// new value.
#[derive(Clone, Debug, PartialEq, Eq)]
pub struct RawArgs {
    entries: Vec<ArgEntry>,
}

/// The map that a sequence of entries builds up, later entries first.
pub open spec fn map_of(entries: Seq<ArgEntry>) -> Map<Seq<char>, ArgValueView>
    decreases entries.len(),
{
    if entries.len() == 0 {
        Map::empty()
    } else {
        map_of(entries.drop_last()).insert(entries.last().key@, entries.last().value@)
    }
}

impl View for RawArgs {
    type V = Map<Seq<char>, ArgValueView>;

    closed spec fn view(&self) -> Map<Seq<char>, ArgValueView> {
        map_of(self.entries@)
    }
}

impl RawArgs {
    /// No arguments at all.
    pub fn new() -> (r: RawArgs)
        ensures
            r@ == Map::<Seq<char>, ArgValueView>::empty(),
    {
        RawArgs { entries: Vec::new() }
    }

    /// Sets `key` to `value`.
    pub fn insert(&mut self, key: String, value: ArgValue)
        ensures
            final(self)@ == old(self)@.insert(key@, value@),
    {
        self.entries.push(ArgEntry { key, value });
        assert(self.entries@.drop_last() =~= old(self).entries@);
    }

    /// The value of `key`, if it has one.
    pub fn get(&self, key: &str) -> (r: Option<&ArgValue>)
        ensures
            match r {
                Some(value) => self@.contains_key(key@) && self@[key@] == value@,
                None => !self@.contains_key(key@),
            },
    {
        let mut i: usize = self.entries.len();
        assert(self.entries@.take(i as int) =~= self.entries@);
        while i > 0
            invariant
                i <= self.entries.len(),
                map_of(self.entries@).contains_key(key@) == map_of(
                    self.entries@.take(i as int),
                ).contains_key(key@),
                map_of(self.entries@).contains_key(key@) ==> map_of(self.entries@)[key@] == map_of(
                    self.entries@.take(i as int),
                )[key@],
            decreases i,
        {
            let ghost prefix = self.entries@.take(i as int);
            assert(prefix.drop_last() =~= self.entries@.take(i - 1));
            assert(prefix.last() == self.entries@[i - 1]);
            i -= 1;
            if same_text(self.entries[i].key.as_str(), key) {
                return Some(&self.entries[i].value);
            }
        }
        assert(self.entries@.take(0) =~= Seq::<ArgEntry>::empty());
        None
    }

    /// Whether `key` has a value.
    pub fn contains_key(&self, key: &str) -> (r: bool)
        ensures
            r == self@.contains_key(key@),
    {
        self.get(key).is_some()
    }
}

} // verus!

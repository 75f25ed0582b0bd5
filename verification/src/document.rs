//! Configuration documents: a tree of text, ordered mappings, and everything
//! else.

use vstd::prelude::*;

verus! {

/// The mathematical model of a document.
///
/// The resolver tells text and mappings apart from all other nodes and never
/// looks into the others, so the model keeps them as one variant.
pub enum Node {
    /// A text scalar.
    Text(Seq<char>),
    /// A mapping: its entries, key then value, in declaration order.
    Mapping(Seq<(Node, Node)>),
    /// A null, boolean, number or sequence.
    Other,
}

/// A document held in memory.
#[derive(Debug, PartialEq, Eq)]
pub enum Document {
    /// A text scalar.
    Text(String),
    /// A mapping: its entries, key then value, in declaration order.
    Mapping(Vec<(Document, Document)>),
    /// A null, boolean, number or sequence.
    Other,
}

impl View for Document {
    type V = Node;

    open spec fn view(&self) -> Node
        decreases self,
    {
        match self {
            Document::Text(s) => Node::Text(s@),
            Document::Mapping(entries) => Node::Mapping(
                Seq::new(
                    entries@.len(),
                    |i: int|
                        if 0 <= i < entries@.len() {
                            (entries@[i].0.view(), entries@[i].1.view())
                        } else {
                            (Node::Other, Node::Other)
                        },
                ),
            ),
            Document::Other => Node::Other,
        }
    }
}

/// The model of a list of entries held in memory.
pub open spec fn entries_view(entries: Seq<(Document, Document)>) -> Seq<(Node, Node)> {
    Seq::new(entries.len(), |i: int| (entries[i].0@, entries[i].1@))
}

/// The entries of a mapping held in memory are modelled entry by entry.
pub proof fn lemma_mapping_view(entries: Vec<(Document, Document)>)
    ensures
        Document::Mapping(entries)@ == Node::Mapping(entries_view(entries@)),
{
    reveal_with_fuel(<Document as View>::view, 2);
    assert(Document::Mapping(entries)@->Mapping_0 =~= entries_view(entries@));
}

/// True where the key of `entry` is the text `key`.
pub open spec fn has_key(entry: (Node, Node), key: Seq<char>) -> bool {
    entry.0 == Node::Text(key)
}

/// True where `i` is the position of the first entry whose key is the text
/// `key`.
pub open spec fn is_first_with_key(entries: Seq<(Node, Node)>, key: Seq<char>, i: int) -> bool {
    &&& 0 <= i < entries.len()
    &&& has_key(entries[i], key)
    &&& forall|j: int| 0 <= j < i ==> !has_key(#[trigger] entries[j], key)
}

/// The value of the first entry whose key is the text `key`, `None` where no
/// entry has that key.
pub open spec fn lookup(entries: Seq<(Node, Node)>, key: Seq<char>) -> Option<Node> {
    if exists|i: int| is_first_with_key(entries, key, i) {
        Some(entries[choose|i: int| is_first_with_key(entries, key, i)].1)
    } else {
        None
    }
}

/// The first entry with a key is the one that `lookup` gives.
pub proof fn lemma_lookup_found(entries: Seq<(Node, Node)>, key: Seq<char>, i: int)
    requires
        is_first_with_key(entries, key, i),
    ensures
        lookup(entries, key) == Some(entries[i].1),
{
    let k = choose|k: int| is_first_with_key(entries, key, k);
    if k < i {
        assert(!has_key(entries[k], key));
    } else if i < k {
        assert(!has_key(entries[i], key));
    }
}

/// Where no entry has the key, `lookup` gives nothing.
pub proof fn lemma_lookup_absent(entries: Seq<(Node, Node)>, key: Seq<char>)
    requires
        forall|j: int| 0 <= j < entries.len() ==> !has_key(#[trigger] entries[j], key),
    ensures
        lookup(entries, key) is None,
{
    if exists|i: int| is_first_with_key(entries, key, i) {
        let k = choose|k: int| is_first_with_key(entries, key, k);
        assert(has_key(entries[k], key));
    }
}

/// Whether `text` spells `wanted`.
pub fn text_is(text: &String, wanted: &str) -> (r: bool)
    ensures
        r == (text@ == wanted@),
{
    let wanted_text = String::from_str(wanted);
    *text == wanted_text
}

impl Document {
    /// Whether this node is the text `wanted`.
    pub fn is_text(&self, wanted: &str) -> (r: bool)
        ensures
            r == (self@ == Node::Text(wanted@)),
    {
        match self {
            Document::Text(s) => text_is(s, wanted),
            _ => false,
        }
    }
}

/// Finds the value of the first entry whose key is the text `key`.
pub fn find_entry<'a>(entries: &'a Vec<(Document, Document)>, key: &str) -> (r: Option<
    &'a Document,
>)
    ensures
        match r {
            Some(found) => lookup(entries_view(entries@), key@) == Some(found@),
            None => lookup(entries_view(entries@), key@) is None,
        },
{
    let ghost model = entries_view(entries@);
    let mut i: usize = 0;
    while i < entries.len()
        invariant
            i <= entries.len(),
            model == entries_view(entries@),
            forall|j: int| 0 <= j < i ==> !has_key(#[trigger] model[j], key@),
        decreases entries.len() - i,
    {
        if entries[i].0.is_text(key) {
            proof {
                assert(has_key(model[i as int], key@));
                lemma_lookup_found(model, key@, i as int);
            }
            return Some(&entries[i].1);
        }
        assert(!has_key(model[i as int], key@));
        i += 1;
    }
    proof {
        lemma_lookup_absent(model, key@);
    }
    None
}

} // verus!

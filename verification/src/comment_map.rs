//! A finite mapping from comment identifier to comment.

use vstd::prelude::*;
use crate::model::{Comment, CommentView};

verus! {

/// Whether no identifier occurs twice in `items`.
pub open spec fn distinct_ids(items: Seq<Comment>) -> bool {
    forall|i: int, j: int|
        0 <= i < j < items.len() ==> (#[trigger] items[i]).id@ != (#[trigger] items[j]).id@
}

/// The mapping that arises when the comments of `items` are entered one after
/// the other, each under its identifier.
spec fn map_of(items: Seq<Comment>) -> Map<Seq<char>, CommentView>
    decreases items.len(),
{
    if items.len() == 0 {
        Map::empty()
    } else {
        map_of(items.drop_last()).insert(items.last().id@, items.last()@)
    }
}

/// Whether the list `items` holds exactly the values of the mapping `m`, each
/// under its own identifier and none twice.
pub open spec fn lists(items: Seq<Comment>, m: Map<Seq<char>, CommentView>) -> bool {
    &&& distinct_ids(items)
    &&& m.dom().finite()
    &&& m.dom().len() == items.len()
    &&& forall|i: int|
        0 <= i < items.len() ==> m.contains_key((#[trigger] items[i]).id@) && m[items[i].id@]
            == items[i]@
    &&& forall|k: Seq<char>| #[trigger]
        m.contains_key(k) ==> exists|i: int| 0 <= i < items.len() && (#[trigger] items[i]).id@ == k
}

/// A list without a repeated identifier lists the mapping that it gives rise
/// to.
proof fn lemma_map_of_lists(items: Seq<Comment>)
    requires
        distinct_ids(items),
    ensures
        lists(items, map_of(items)),
    decreases items.len(),
{
    if items.len() > 0 {
        let front = items.drop_last();
        let last = items.last();
        lemma_map_of_lists(front);
        let m = map_of(front);
        assert(forall|i: int| 0 <= i < front.len() ==> front[i] == items[i]);
        if m.contains_key(last.id@) {
            let i = choose|i: int| 0 <= i < front.len() && (#[trigger] front[i]).id@ == last.id@;
            assert(items[i].id@ == items[items.len() - 1].id@);
        }
        assert forall|k: Seq<char>| #[trigger] map_of(items).contains_key(k) implies exists|i: int|
            0 <= i < items.len() && (#[trigger] items[i]).id@ == k by {
            if k == last.id@ {
                assert(items[items.len() - 1].id@ == k);
            } else {
                let i = choose|i: int| 0 <= i < front.len() && (#[trigger] front[i]).id@ == k;
                assert(items[i].id@ == k);
            }
        }
    }
}

/// A list lists at most one mapping.
pub proof fn lemma_lists_one_mapping(
    items: Seq<Comment>,
    a: Map<Seq<char>, CommentView>,
    b: Map<Seq<char>, CommentView>,
)
    requires
        lists(items, a),
        lists(items, b),
    ensures
        a == b,
{
    assert forall|k: Seq<char>| a.contains_key(k) implies b.contains_key(k) && a[k] == b[k] by {
        let i = choose|i: int| 0 <= i < items.len() && (#[trigger] items[i]).id@ == k;
    }
    assert forall|k: Seq<char>| b.contains_key(k) implies a.contains_key(k) by {
        let i = choose|i: int| 0 <= i < items.len() && (#[trigger] items[i]).id@ == k;
    }
    assert(a =~= b);
}

/// The comments of one discussion, each found by its identifier. An
/// identifier occurs at most once. The order of the comments means nothing.
/// Finding and entering a comment walk through the comments one by one.
#[derive(Debug)]
pub struct CommentMap {
    entries: Vec<Comment>,
}

impl View for CommentMap {
    type V = Map<Seq<char>, CommentView>;

    closed spec fn view(&self) -> Map<Seq<char>, CommentView> {
        map_of(self.entries@)
    }
}

/// Where in `entries` the identifier `id` stands, if anywhere.
fn position(entries: &Vec<Comment>, id: &String) -> (found: Option<usize>)
    ensures
        match found {
            Some(p) => p < entries.len() && entries[p as int].id@ == id@,
            None => forall|i: int| 0 <= i < entries.len() ==> (#[trigger] entries[i]).id@ != id@,
        },
{
    let mut i: usize = 0;
    while i < entries.len()
        invariant
            i <= entries.len(),
            forall|j: int| 0 <= j < i ==> (#[trigger] entries[j]).id@ != id@,
        decreases entries.len() - i,
    {
        if entries[i].id == *id {
            return Some(i);
        }
        i += 1;
    }
    None
}

impl CommentMap {
    #[verifier::type_invariant]
    spec fn well_formed(self) -> bool {
        distinct_ids(self.entries@)
    }

    /// A mapping without comments.
    pub fn new() -> (m: CommentMap)
        ensures
            m@ == Map::<Seq<char>, CommentView>::empty(),
    {
        CommentMap { entries: Vec::new() }
    }

    /// Puts `comment` under its identifier, in place of the comment that was
    /// there, if one was.
    pub fn insert(&mut self, comment: Comment)
        ensures
            final(self)@ == old(self)@.insert(comment.id@, comment@),
    {
        proof {
            use_type_invariant(&*self);
        }
        let mut entries = Vec::new();
        std::mem::swap(&mut self.entries, &mut entries);
        let ghost before = entries@;
        let ghost after = map_of(before).insert(comment.id@, comment@);
        proof {
            lemma_map_of_lists(before);
        }
        match position(&entries, &comment.id) {
            Some(p) => {
                entries.set(p, comment);
                proof {
                    assert(after.dom() =~= map_of(before).dom());
                    assert forall|i: int| 0 <= i < entries@.len() implies after.contains_key(
                        (#[trigger] entries@[i]).id@,
                    ) && after[entries@[i].id@] == entries@[i]@ by {
                        if i != p {
                            assert(before[i].id@ != before[p as int].id@);
                        }
                    }
                    assert forall|k: Seq<char>| #[trigger] after.contains_key(k) implies exists|
                        i: int,
                    | 0 <= i < entries@.len() && (#[trigger] entries@[i]).id@ == k by {
                        let i = choose|i: int|
                            0 <= i < before.len() && (#[trigger] before[i]).id@ == k;
                        assert(entries@[i].id@ == k);
                    }
                    assert forall|i: int, j: int| 0 <= i < j < entries@.len() implies (
                    #[trigger] entries@[i]).id@ != (#[trigger] entries@[j]).id@ by {
                        assert(before[i].id@ != before[j].id@);
                    }
                    lemma_map_of_lists(entries@);
                    lemma_lists_one_mapping(entries@, after, map_of(entries@));
                }
            },
            None => {
                entries.push(comment);
                proof {
                    assert(entries@.drop_last() =~= before);
                    assert forall|i: int, j: int| 0 <= i < j < entries@.len() implies (
                    #[trigger] entries@[i]).id@ != (#[trigger] entries@[j]).id@ by {
                        assert(before[i].id@ != comment.id@);
                        if j < before.len() {
                            assert(before[i].id@ != before[j].id@);
                        }
                    }
                }
            },
        }
        self.entries = entries;
    }

    /// The number of comments.
    pub fn len(&self) -> (n: usize)
        ensures
            n == self@.len(),
            self@.dom().finite(),
    {
        proof {
            use_type_invariant(self);
            lemma_map_of_lists(self.entries@);
        }
        self.entries.len()
    }

    /// Whether there is no comment at all.
    pub fn is_empty(&self) -> (b: bool)
        ensures
            b == (self@.len() == 0),
            b == (self@ == Map::<Seq<char>, CommentView>::empty()),
    {
        proof {
            use_type_invariant(self);
            lemma_map_of_lists(self.entries@);
            if self.entries@.len() > 0 {
                assert(self@.contains_key(self.entries@[0].id@));
            }
        }
        self.entries.len() == 0
    }

    /// Whether a comment stands under `id`.
    pub fn contains_key(&self, id: &str) -> (b: bool)
        ensures
            b == self@.contains_key(id@),
    {
        proof {
            use_type_invariant(self);
            lemma_map_of_lists(self.entries@);
        }
        let key = id.to_owned();
        position(&self.entries, &key).is_some()
    }

    /// The comment under `id`, if there is one.
    pub fn get(&self, id: &str) -> (found: Option<&Comment>)
        ensures
            match found {
                Some(c) => self@.contains_key(id@) && self@[id@] == c@ && c.id@ == id@,
                None => !self@.contains_key(id@),
            },
    {
        proof {
            use_type_invariant(self);
            lemma_map_of_lists(self.entries@);
        }
        let key = id.to_owned();
        match position(&self.entries, &key) {
            Some(p) => Some(&self.entries[p]),
            None => None,
        }
    }

    /// The comments, each once, in no particular order.
    pub fn values(&self) -> (items: &Vec<Comment>)
        ensures
            lists(items@, self@),
    {
        proof {
            use_type_invariant(self);
            lemma_map_of_lists(self.entries@);
        }
        &self.entries
    }

    /// Gives the comments up, each once, in no particular order.
    pub fn into_values(self) -> (items: Vec<Comment>)
        ensures
            lists(items@, self@),
    {
        proof {
            use_type_invariant(&self);
            lemma_map_of_lists(self.entries@);
        }
        self.entries
    }
}

} // verus!

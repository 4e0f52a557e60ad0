//! The item catalogue as a tree, and the name filter that prunes it.

use vstd::prelude::*;
use vstd::string::*;
use crate::hotkey::ascii_lower;
use crate::text::chars_of;

verus! {

/// The lower-case form of a character, as the standard library maps it; it
/// may be more than one character long.
pub uninterp spec fn lowercase_of(c: char) -> Seq<char>;

/// `char::to_lowercase` of the standard library, its characters collected
/// in order. The mapping is a fixed table: the same character always gives
/// the same characters. Below 0x80 it is the ASCII one: a letter from `A`
/// to `Z` gives the one letter 32 above, every other character gives itself.
#[verifier::external_body]
fn char_lowercase(c: char) -> (lower: Vec<char>)
    ensures
        lower@ == lowercase_of(c),
        (c as u32) < 0x80 ==> lower@ == seq![ascii_lower(c)],
{
    c.to_lowercase().collect()
}

/// The lower-case form of a character: the ASCII one below 0x80, the
/// standard library's above.
pub open spec fn lower_of(c: char) -> Seq<char> {
    if (c as u32) < 0x80 {
        seq![ascii_lower(c)]
    } else {
        lowercase_of(c)
    }
}

/// `text` with every character replaced by its lower-case form.
pub open spec fn lower_text(text: Seq<char>) -> Seq<char>
    decreases text.len(),
{
    if text.len() == 0 {
        Seq::empty()
    } else {
        lower_text(text.drop_last()) + lower_of(text.last())
    }
}

/// Whether `needle[i..]` can be found in `haystack[j..]` in order, not
/// necessarily side by side.
pub open spec fn embeds_from(needle: Seq<char>, i: int, haystack: Seq<char>, j: int) -> bool
    decreases haystack.len() - j,
{
    if i >= needle.len() {
        true
    } else if j >= haystack.len() {
        false
    } else if needle[i] == haystack[j] {
        embeds_from(needle, i + 1, haystack, j + 1)
    } else {
        embeds_from(needle, i, haystack, j + 1)
    }
}

/// Whether `needle` is a sub-sequence of `haystack`.
pub open spec fn is_subsequence(needle: Seq<char>, haystack: Seq<char>) -> bool {
    embeds_from(needle, 0, haystack, 0)
}

/// What the filter decides: the needle, in lower case, is a sub-sequence of
/// the haystack in lower case.
pub open spec fn name_matches(needle: Seq<char>, haystack: Seq<char>) -> bool {
    is_subsequence(lower_text(needle), lower_text(haystack))
}

fn lowered(text: &str) -> (out: Vec<char>)
    ensures
        out@ == lower_text(text@),
{
    let chars = chars_of(text);
    let mut out: Vec<char> = Vec::new();
    let mut i: usize = 0;
    assert(chars@.subrange(0, 0) =~= Seq::<char>::empty());
    while i < chars.len()
        invariant
            i <= chars.len(),
            out@ == lower_text(chars@.subrange(0, i as int)),
        decreases chars.len() - i,
    {
        let lower = char_lowercase(chars[i]);
        let ghost before = out@;
        let mut k: usize = 0;
        while k < lower.len()
            invariant
                k <= lower.len(),
                out@ == before + lower@.subrange(0, k as int),
            decreases lower.len() - k,
        {
            out.push(lower[k]);
            k = k + 1;
            assert(out@ =~= before + lower@.subrange(0, k as int));
        }
        assert(lower@.subrange(0, lower.len() as int) =~= lower@);
        assert(chars@.subrange(0, i + 1).drop_last() =~= chars@.subrange(0, i as int));
        i = i + 1;
    }
    assert(chars@.subrange(0, chars.len() as int) =~= chars@);
    out
}

/// Whether `needle` is a sub-sequence of `haystack`: every character of
/// the needle appears in the haystack, in order.
pub fn matches_lowered(needle: &Vec<char>, haystack: &Vec<char>) -> (found: bool)
    ensures
        found == is_subsequence(needle@, haystack@),
{
    let mut i: usize = 0;
    let mut j: usize = 0;
    while i < needle.len() && j < haystack.len()
        invariant
            i <= needle.len(),
            j <= haystack.len(),
            is_subsequence(needle@, haystack@) == embeds_from(
                needle@,
                i as int,
                haystack@,
                j as int,
            ),
        decreases haystack.len() - j,
    {
        if needle[i] == haystack[j] {
            i = i + 1;
        }
        j = j + 1;
    }
    i == needle.len()
}

/// The item-name filter: case-insensitive sub-sequence matching. Every
/// character of the needle must appear in the haystack, in order.
pub fn string_match(needle: &str, haystack: &str) -> (found: bool)
    ensures
        found == name_matches(needle@, haystack@),
{
    let n = lowered(needle);
    let h = lowered(haystack);
    matches_lowered(&n, &h)
}

/// The empty needle matches every haystack.
pub proof fn lemma_empty_needle_matches(haystack: Seq<char>)
    ensures
        name_matches(Seq::empty(), haystack),
{
}

proof fn lemma_embeds_itself(text: Seq<char>, i: int)
    requires
        0 <= i <= text.len(),
    ensures
        embeds_from(text, i, text, i),
    decreases text.len() - i,
{
    if i < text.len() {
        lemma_embeds_itself(text, i + 1);
    }
}

/// Every name matches itself.
pub proof fn lemma_matches_itself(text: Seq<char>)
    ensures
        name_matches(text, text),
{
    lemma_embeds_itself(lower_text(text), 0);
}

proof fn lemma_embeds_with_more_haystack(needle: Seq<char>, i: int, haystack: Seq<char>, j: int)
    requires
        0 <= i,
        0 <= j,
        embeds_from(needle, i, haystack, j + 1),
    ensures
        embeds_from(needle, i, haystack, j),
    decreases haystack.len() - j, 0nat,
{
    if i < needle.len() && j < haystack.len() && needle[i] == haystack[j] {
        lemma_embeds_shorter_needle(needle, i, haystack, j + 1);
    }
}

proof fn lemma_embeds_shorter_needle(needle: Seq<char>, i: int, haystack: Seq<char>, j: int)
    requires
        0 <= i,
        0 <= j,
        embeds_from(needle, i, haystack, j),
    ensures
        embeds_from(needle, i + 1, haystack, j),
    decreases haystack.len() - j, 1nat,
{
    if i + 1 < needle.len() && j < haystack.len() {
        if needle[i] != haystack[j] {
            lemma_embeds_shorter_needle(needle, i, haystack, j + 1);
        }
        lemma_embeds_with_more_haystack(needle, i + 1, haystack, j);
    }
}

proof fn lemma_embeds_same_rest(
    needle: Seq<char>,
    i: int,
    a: Seq<char>,
    x: int,
    b: Seq<char>,
    y: int,
)
    requires
        0 <= i,
        0 <= x <= a.len(),
        0 <= y <= b.len(),
        a.skip(x) =~= b.skip(y),
    ensures
        embeds_from(needle, i, a, x) == embeds_from(needle, i, b, y),
    decreases a.len() - x,
{
    assert(a.len() - x == b.len() - y) by {
        assert(a.skip(x).len() == b.skip(y).len());
    }
    if i < needle.len() && x < a.len() {
        assert(a[x] == b[y]) by {
            assert(a.skip(x)[0] == b.skip(y)[0]);
        }
        assert(a.skip(x + 1) =~= b.skip(y + 1)) by {
            let p = a.skip(x + 1);
            let q = b.skip(y + 1);
            assert forall|k: int| 0 <= k < p.len() implies #[trigger] p[k] == q[k] by {
                assert(a.skip(x)[k + 1] == b.skip(y)[k + 1]);
            }
        }
        if needle[i] == a[x] {
            lemma_embeds_same_rest(needle, i + 1, a, x + 1, b, y + 1);
        } else {
            lemma_embeds_same_rest(needle, i, a, x + 1, b, y + 1);
        }
    }
}

proof fn lemma_embeds_after_insertion(
    needle: Seq<char>,
    i: int,
    haystack: Seq<char>,
    j: int,
    at: int,
    c: char,
)
    requires
        0 <= i,
        0 <= j <= at <= haystack.len(),
        embeds_from(needle, i, haystack, j),
    ensures
        embeds_from(needle, i, haystack.insert(at, c), j),
    decreases at - j,
{
    let wider = haystack.insert(at, c);
    if i < needle.len() {
        if j == at {
            assert(wider.skip(j + 1) =~= haystack.skip(j));
            lemma_embeds_same_rest(needle, i, wider, j + 1, haystack, j);
            lemma_embeds_with_more_haystack(needle, i, wider, j);
        } else {
            assert(wider[j] == haystack[j]);
            if needle[i] == haystack[j] {
                lemma_embeds_after_insertion(needle, i + 1, haystack, j + 1, at, c);
            } else {
                lemma_embeds_after_insertion(needle, i, haystack, j + 1, at, c);
            }
        }
    }
}

/// A needle that is found stays found when a character, a duplicate of a
/// neighbour or any other, is put into the haystack.
pub proof fn lemma_found_after_insertion(needle: Seq<char>, haystack: Seq<char>, at: int, c: char)
    requires
        0 <= at <= haystack.len(),
        is_subsequence(needle, haystack),
    ensures
        is_subsequence(needle, haystack.insert(at, c)),
{
    lemma_embeds_after_insertion(needle, 0, haystack, 0, at, c);
}

/// A node of the item catalogue: an item with its id and description, or
/// a named group of nodes.
#[derive(Debug)]
pub enum ItemIDNode {
    Leaf { id: u32, desc: String },
    Node { node: String, children: Vec<ItemIDNode> },
}

/// A node of the tree that the item list shows: what is left of the
/// catalogue under the current filter.
#[derive(Debug)]
pub enum ItemIDNodeRef {
    Leaf { node: String, value: u32 },
    Node { node: String, children: Vec<ItemIDNodeRef> },
}

/// The mathematical form of both kinds of tree node.
pub ghost enum ItemView {
    Leaf { id: u32, desc: Seq<char> },
    Node { node: Seq<char>, children: Seq<ItemView> },
}

/// The mathematical form of a catalogue node.
pub open spec fn item_view(item: ItemIDNode) -> ItemView
    decreases item,
{
    match item {
        ItemIDNode::Leaf { id, desc } => ItemView::Leaf { id, desc: desc@ },
        ItemIDNode::Node { node, children } => ItemView::Node {
            node: node@,
            children: item_views(children@),
        },
    }
}

/// The mathematical form of a list of catalogue nodes.
pub open spec fn item_views(items: Seq<ItemIDNode>) -> Seq<ItemView>
    decreases items,
{
    if items.len() == 0 {
        Seq::empty()
    } else {
        item_views(items.drop_last()).push(item_view(items.last()))
    }
}

/// The mathematical form of a shown node.
pub open spec fn shown_view(item: ItemIDNodeRef) -> ItemView
    decreases item,
{
    match item {
        ItemIDNodeRef::Leaf { node, value } => ItemView::Leaf { id: value, desc: node@ },
        ItemIDNodeRef::Node { node, children } => ItemView::Node {
            node: node@,
            children: shown_views(children@),
        },
    }
}

/// The mathematical form of a list of shown nodes.
pub open spec fn shown_views(items: Seq<ItemIDNodeRef>) -> Seq<ItemView>
    decreases items,
{
    if items.len() == 0 {
        Seq::empty()
    } else {
        shown_views(items.drop_last()).push(shown_view(items.last()))
    }
}

impl View for ItemIDNode {
    type V = ItemView;

    open spec fn view(&self) -> ItemView {
        item_view(*self)
    }
}

impl View for ItemIDNodeRef {
    type V = ItemView;

    open spec fn view(&self) -> ItemView {
        shown_view(*self)
    }
}

/// What a non-empty filter leaves of a node: an item stays where its
/// description matches, a group stays with the children that stay, and goes
/// where none does. The name of a group is not matched.
pub open spec fn pruned(item: ItemView, needle: Seq<char>) -> Option<ItemView>
    decreases item, 1nat,
{
    match item {
        ItemView::Leaf { id, desc } => if name_matches(needle, desc) {
            Some(item)
        } else {
            None
        },
        ItemView::Node { node, children } => {
            let kept = pruned_list(children, needle);
            if kept.len() == 0 {
                None
            } else {
                Some(ItemView::Node { node, children: kept })
            }
        },
    }
}

/// What a non-empty filter leaves of a list of nodes, in order.
pub open spec fn pruned_list(items: Seq<ItemView>, needle: Seq<char>) -> Seq<ItemView>
    decreases items, 0nat,
{
    if items.len() == 0 {
        Seq::empty()
    } else {
        let before = pruned_list(items.drop_last(), needle);
        match pruned(items.last(), needle) {
            Some(kept) => before.push(kept),
            None => before,
        }
    }
}

/// What a filter leaves of a node: everything where the filter is empty.
pub open spec fn filter_outcome(item: ItemView, needle: Seq<char>) -> Option<ItemView> {
    if needle.len() == 0 {
        Some(item)
    } else {
        pruned(item, needle)
    }
}

/// What a filter leaves of a list of nodes: everything where the filter is
/// empty.
pub open spec fn filter_list_outcome(items: Seq<ItemView>, needle: Seq<char>) -> Seq<ItemView> {
    if needle.len() == 0 {
        items
    } else {
        pruned_list(items, needle)
    }
}

/// What a filter has kept, the same filter keeps: an item or group that
/// came out of the pruning comes out of a second pruning unchanged.
pub proof fn lemma_pruned_stays(item: ItemView, needle: Seq<char>)
    requires
        pruned(item, needle) is Some,
    ensures
        pruned(pruned(item, needle)->Some_0, needle) == pruned(item, needle),
    decreases item, 1nat,
{
    match item {
        ItemView::Leaf { .. } => {},
        ItemView::Node { node, children } => {
            lemma_filter_twice(children, needle);
        },
    }
}

/// Filtering twice with the same filter is filtering once.
pub proof fn lemma_filter_twice(items: Seq<ItemView>, needle: Seq<char>)
    ensures
        pruned_list(pruned_list(items, needle), needle) == pruned_list(items, needle),
    decreases items, 0nat,
{
    if items.len() > 0 {
        let before = pruned_list(items.drop_last(), needle);
        lemma_filter_twice(items.drop_last(), needle);
        match pruned(items.last(), needle) {
            Some(kept) => {
                lemma_pruned_stays(items.last(), needle);
                assert(before.push(kept).drop_last() =~= before);
            },
            None => {},
        }
    }
}

fn copy_node(item: &ItemIDNode) -> (shown: ItemIDNodeRef)
    ensures
        shown@ == item@,
    decreases item, 1nat,
{
    match item {
        ItemIDNode::Leaf { id, desc } => ItemIDNodeRef::Leaf { node: desc.clone(), value: *id },
        ItemIDNode::Node { node, children } => ItemIDNodeRef::Node {
            node: node.clone(),
            children: copy_nodes(children),
        },
    }
}

fn copy_nodes(items: &Vec<ItemIDNode>) -> (shown: Vec<ItemIDNodeRef>)
    ensures
        shown_views(shown@) == item_views(items@),
    decreases items, 0nat,
{
    let mut shown: Vec<ItemIDNodeRef> = Vec::new();
    let mut i: usize = 0;
    assert(items@.subrange(0, 0) =~= Seq::<ItemIDNode>::empty());
    while i < items.len()
        invariant
            i <= items.len(),
            shown_views(shown@) == item_views(items@.subrange(0, i as int)),
        decreases items.len() - i,
    {
        let copy = copy_node(&items[i]);
        proof {
            assert(items@.subrange(0, i + 1).drop_last() =~= items@.subrange(0, i as int));
            assert(shown@.push(copy).drop_last() =~= shown@);
        }
        shown.push(copy);
        i = i + 1;
    }
    assert(items@.subrange(0, items.len() as int) =~= items@);
    shown
}

fn prune_node(item: &ItemIDNode, needle: &str) -> (shown: Option<ItemIDNodeRef>)
    ensures
        match (shown, pruned(item@, needle@)) {
            (Some(a), Some(b)) => a@ == b,
            (None, None) => true,
            _ => false,
        },
    decreases item, 1nat,
{
    match item {
        ItemIDNode::Leaf { id, desc } => {
            if string_match(needle, desc.as_str()) {
                Some(ItemIDNodeRef::Leaf { node: desc.clone(), value: *id })
            } else {
                None
            }
        },
        ItemIDNode::Node { node, children } => {
            let kept = prune_nodes(children, needle);
            if kept.len() == 0 {
                None
            } else {
                Some(ItemIDNodeRef::Node { node: node.clone(), children: kept })
            }
        },
    }
}

fn prune_nodes(items: &Vec<ItemIDNode>, needle: &str) -> (shown: Vec<ItemIDNodeRef>)
    ensures
        shown_views(shown@) == pruned_list(item_views(items@), needle@),
        shown@.len() == pruned_list(item_views(items@), needle@).len(),
    decreases items, 0nat,
{
    let mut shown: Vec<ItemIDNodeRef> = Vec::new();
    let mut i: usize = 0;
    assert(items@.subrange(0, 0) =~= Seq::<ItemIDNode>::empty());
    while i < items.len()
        invariant
            i <= items.len(),
            shown_views(shown@) == pruned_list(item_views(items@.subrange(0, i as int)), needle@),
            shown@.len() == shown_views(shown@).len(),
        decreases items.len() - i,
    {
        let kept = prune_node(&items[i], needle);
        proof {
            let upto = items@.subrange(0, i + 1);
            assert(upto.drop_last() =~= items@.subrange(0, i as int));
            assert(item_views(upto).drop_last() =~= item_views(upto.drop_last()));
        }
        match kept {
            Some(node) => {
                proof {
                    assert(shown@.push(node).drop_last() =~= shown@);
                }
                shown.push(node);
            },
            None => {},
        }
        i = i + 1;
    }
    assert(items@.subrange(0, items.len() as int) =~= items@);
    shown
}

impl ItemIDNodeRef {
    /// The shown form of a whole catalogue node.
    pub fn from(v: &ItemIDNode) -> (shown: ItemIDNodeRef)
        ensures
            shown@ == v@,
    {
        copy_node(v)
    }
}

impl ItemIDNode {
    /// Applies the filter to this node.
    pub fn filter(&self, filter: &str) -> (shown: Option<ItemIDNodeRef>)
        ensures
            match (shown, filter_outcome(self@, filter@)) {
                (Some(a), Some(b)) => a@ == b,
                (None, None) => true,
                _ => false,
            },
    {
        if filter.unicode_len() == 0 {
            Some(ItemIDNodeRef::from(self))
        } else {
            prune_node(self, filter)
        }
    }
}

/// The shown form of a whole catalogue.
pub fn whole_tree(tree: &Vec<ItemIDNode>) -> (shown: Vec<ItemIDNodeRef>)
    ensures
        shown_views(shown@) == item_views(tree@),
{
    copy_nodes(tree)
}

/// Applies the filter to a whole catalogue, keeping its order.
pub fn filter_tree(tree: &Vec<ItemIDNode>, filter: &str) -> (shown: Vec<ItemIDNodeRef>)
    ensures
        shown_views(shown@) == filter_list_outcome(item_views(tree@), filter@),
{
    if filter.unicode_len() == 0 {
        copy_nodes(tree)
    } else {
        prune_nodes(tree, filter)
    }
}

} // verus!

//! Reading the bundled item catalogue: a JSON array of items, each with
//! its id as eight hexadecimal digits, and of named groups of items.

use vstd::prelude::*;
use vstd::string::*;
use crate::document::{json_get, json_list, json_node, json_parse, json_parsed, json_text, node_field, Node};
use crate::item_tree::{item_view, item_views, ItemIDNode, ItemView};
use vstd::utf8::{
    char_u32_cast, encode_scalar, encode_utf8, is_ascii_chars, is_ascii_chars_encode_utf8,
};
use crate::text::{decimal, lower_hex, push_decimal, push_lower_hex};

verus! {

/// The value of a hexadecimal digit, in either case.
pub open spec fn hex_value(c: u8) -> Option<int> {
    if 0x30 <= c <= 0x39 {
        Some(c - 0x30)
    } else if 0x41 <= c <= 0x46 {
        Some(c - 0x41 + 10)
    } else if 0x61 <= c <= 0x66 {
        Some(c - 0x61 + 10)
    } else {
        None
    }
}

/// Whether every byte is a hexadecimal digit.
pub open spec fn all_hex(digits: Seq<u8>) -> bool {
    forall|i: int| 0 <= i < digits.len() ==> (#[trigger] hex_value(digits[i])) is Some
}

/// The bytes that pairs of hexadecimal digits spell, the high digit first.
pub open spec fn hex_bytes(digits: Seq<u8>) -> Seq<u8> {
    Seq::new(
        digits.len() / 2,
        |i: int| (16 * hex_value(digits[2 * i])->Some_0 + hex_value(digits[2 * i + 1])->Some_0) as u8,
    )
}

/// The complaint of the hexadecimal decoder about digits it rejects.
pub uninterp spec fn hex_error_text(digits: Seq<u8>) -> Seq<char>;

/// `hex::decode_to_slice` into a buffer of four bytes: it succeeds exactly
/// on eight hexadecimal digits, in either case, and byte `i` of the result
/// is spelled by digits `2 i` and `2 i + 1`, the high digit first. Where it
/// fails, its error is rendered with its `Display` form, which is a function
/// of the digits alone.
#[verifier::external_body]
fn hex_decode4(digits: &[u8]) -> (out: Result<Vec<u8>, String>)
    ensures
        match out {
            Ok(bytes) => digits@.len() == 8 && all_hex(digits@) && bytes@ == hex_bytes(digits@),
            Err(complaint) => !(digits@.len() == 8 && all_hex(digits@)) && complaint@
                == hex_error_text(digits@),
        },
{
    let mut bytes = [0u8; 4];
    match hex::decode_to_slice(digits, &mut bytes[..]) {
        Ok(()) => Ok(bytes.to_vec()),
        Err(e) => Err(e.to_string()),
    }
}

/// The number that four bytes encode, most significant byte first.
pub open spec fn be32(b: Seq<u8>) -> int {
    0x100_0000 * b[0] + 0x1_0000 * b[1] + 0x100 * b[2] + b[3]
}

/// Whether a character is a hexadecimal digit, in either case.
pub open spec fn is_hex_digit(c: char) -> bool {
    (c as u32) < 0x80 && hex_value(c as u8) is Some
}

/// The bytes of a text whose characters all lie in the ASCII range.
pub open spec fn ascii_bytes(text: Seq<char>) -> Seq<u8> {
    Seq::new(text.len(), |i: int| text[i] as u8)
}

/// The message for a text whose encoding is not eight bytes long: the
/// length in bytes, then the text.
pub open spec fn length_error_text(len: nat, text: Seq<char>) -> Seq<char> {
    "Invalid hex string length "@ + decimal(len) + ": "@ + text
}

/// The message for a text of eight bytes that are not all hexadecimal
/// digits: the text, then the decoder's complaint.
pub open spec fn decode_error_text(text: Seq<char>, complaint: Seq<char>) -> Seq<char> {
    "Hex decode error for "@ + text + ": "@ + complaint
}

/// What a text is read as: the item id that its eight hexadecimal digits
/// spell, most significant first, or the message that names the text and
/// says what is wrong with it. Nothing is padded, cut or stripped.
pub open spec fn item_id_outcome(text: Seq<char>) -> Result<u32, Seq<char>> {
    let bytes = encode_utf8(text);
    if bytes.len() != 8 {
        Err(length_error_text(bytes.len(), text))
    } else if all_hex(bytes) {
        Ok(be32(hex_bytes(bytes)) as u32)
    } else {
        Err(decode_error_text(text, hex_error_text(bytes)))
    }
}

/// The item id that a text spells, if it spells one.
pub open spec fn item_id_of(text: Seq<char>) -> Option<u32> {
    match item_id_outcome(text) {
        Ok(id) => Some(id),
        Err(_) => None,
    }
}

proof fn lemma_hex_bytes_mean_ascii(text: Seq<char>)
    requires
        all_hex(encode_utf8(text)),
    ensures
        is_ascii_chars(text),
    decreases text.len(),
{
    if text.len() > 0 {
        let c = text[0] as u32;
        let head = encode_scalar(c);
        let rest = encode_utf8(text.drop_first());
        let bytes = encode_utf8(text);
        assert(bytes == head + rest);
        assert(bytes[0] == head[0]);
        assert(hex_value(bytes[0]) is Some);
        if c > 0x7F {
            let x2 = ((c >> 6) & 0x1F) as u8;
            let x3 = ((c >> 12) & 0x0F) as u8;
            let x4 = ((c >> 18) & 0x7) as u8;
            assert(0xC0u8 | x2 >= 0xC0u8) by (bit_vector);
            assert(0xE0u8 | x3 >= 0xC0u8) by (bit_vector);
            assert(0xF0u8 | x4 >= 0xC0u8) by (bit_vector);
            assert(false);
        }
        assert(head.len() == 1);
        assert(rest =~= bytes.subrange(1, bytes.len() as int));
        assert forall|i: int| 0 <= i < rest.len() implies (#[trigger] hex_value(rest[i])) is Some by {
            assert(rest[i] == bytes[i + 1]);
            assert(hex_value(bytes[i + 1]) is Some);
        }
        lemma_hex_bytes_mean_ascii(text.drop_first());
        assert(c <= 0x7F);
        char_u32_cast(text[0], c);
        assert(text[0] <= '\u{7f}');
        assert forall|i: int| 0 <= i < text.len() implies '\0' <= #[trigger] text[i] <= '\u{7f}' by {
            if i > 0 {
                let tail = text.drop_first();
                assert(tail[i - 1] == text[i]);
                assert('\0' <= tail[i - 1] <= '\u{7f}');
            }
        }
    }
}

/// A text is read as an item id exactly where it is eight characters long
/// and every one of them is a hexadecimal digit; the id is then the number
/// that the digits spell.
pub proof fn lemma_item_id_is_eight_hex_digits(text: Seq<char>)
    ensures
        item_id_outcome(text) is Ok <==> text.len() == 8 && forall|i: int|
            0 <= i < 8 ==> is_hex_digit(#[trigger] text[i]),
        item_id_outcome(text) is Ok ==> item_id_outcome(text) == Ok::<u32, Seq<char>>(
            be32(hex_bytes(ascii_bytes(text))) as u32,
        ),
{
    let bytes = encode_utf8(text);
    if text.len() == 8 && (forall|i: int| 0 <= i < 8 ==> is_hex_digit(#[trigger] text[i])) {
        assert(is_ascii_chars(text)) by {
            assert forall|i: int| 0 <= i < text.len() implies '\0' <= #[trigger] text[i]
                <= '\u{7f}' by {
                assert(is_hex_digit(text[i]));
                char_u32_cast(text[i], text[i] as u32);
            }
        }
        is_ascii_chars_encode_utf8(text);
        assert(bytes =~= ascii_bytes(text));
        assert forall|i: int| 0 <= i < bytes.len() implies (#[trigger] hex_value(bytes[i])) is Some by {
            assert(is_hex_digit(text[i]));
        }
    }
    if item_id_outcome(text) is Ok {
        lemma_hex_bytes_mean_ascii(text);
        is_ascii_chars_encode_utf8(text);
        assert(bytes =~= ascii_bytes(text));
        assert forall|i: int| 0 <= i < 8 implies is_hex_digit(#[trigger] text[i]) by {
            assert(hex_value(bytes[i]) is Some);
            assert(text[i] as u8 == bytes[i]);
        }
    }
}

/// Reads an item id from its eight hexadecimal digits, or says what is
/// wrong with the text.
pub fn read_item_id(text: &str) -> (r: Result<u32, String>)
    ensures
        match (r, item_id_outcome(text@)) {
            (Ok(id), Ok(expected)) => id == expected,
            (Err(message), Err(expected)) => message@ == expected,
            _ => false,
        },
{
    let bytes = text.as_bytes();
    let n = bytes.len();
    if n != 8 {
        let mut message = String::new();
        message.append("Invalid hex string length ");
        push_decimal(&mut message, n as u64);
        message.append(": ");
        message.append(text);
        assert(message@ =~= length_error_text(n as nat, text@));
        return Err(message);
    }
    match hex_decode4(bytes) {
        Ok(b) => {
            let id = 0x100_0000 * (b[0] as u32) + 0x1_0000 * (b[1] as u32) + 0x100 * (b[2] as u32) + (
            b[3] as u32);
            Ok(id)
        },
        Err(complaint) => {
            let mut message = String::new();
            message.append("Hex decode error for ");
            message.append(text);
            message.append(": ");
            message.append(complaint.as_str());
            assert(message@ =~= decode_error_text(text@, complaint@));
            Err(message)
        },
    }
}

/// Reads an item id from its eight hexadecimal digits.
pub fn parse_item_id(text: &str) -> (id: Option<u32>)
    ensures
        id == item_id_of(text@),
{
    match read_item_id(text) {
        Ok(id) => Some(id),
        Err(_) => None,
    }
}

/// The display form of an item id: `0x` and the id in lower-case
/// hexadecimal, without padding.
pub open spec fn item_id_text(id: u32) -> Seq<char> {
    "0x"@ + lower_hex(id as nat)
}

/// Renders an item id for display.
pub fn format_item_id(id: u32) -> (text: String)
    ensures
        text@ == item_id_text(id),
{
    let mut text = String::new();
    text.append("0x");
    push_lower_hex(&mut text, id as u64);
    assert(text@ =~= item_id_text(id));
    text
}

/// Why a catalogue text cannot be used.
#[derive(Clone, Copy, Debug, PartialEq, Eq, Structural)]
pub enum CatalogueError {
    /// The text is not JSON.
    Syntax,
    /// The top level is not an array.
    NotAList,
    /// An entry is neither an item nor a group.
    BadEntry,
}

/// The item that an object denotes: an `id` of eight hexadecimal digits
/// and a `desc`, both strings.
pub open spec fn leaf_of(node: Node) -> Option<ItemView> {
    match (node_field(node, "id"@), node_field(node, "desc"@)) {
        (Some(Node::Text(id)), Some(Node::Text(desc))) => match item_id_of(id) {
            Some(value) => Some(ItemView::Leaf { id: value, desc }),
            None => None,
        },
        _ => None,
    }
}

/// The entry that an object denotes: an item where it reads as one, else a
/// group with a `node` name and a `children` array whose entries all
/// denote something; `None` where it reads as neither.
pub open spec fn entry_of(node: Node) -> Option<ItemView>
    decreases node, 1nat,
{
    match leaf_of(node) {
        Some(leaf) => Some(leaf),
        None => match (node_field(node, "node"@), node_field(node, "children"@)) {
            (Some(Node::Text(name)), Some(Node::List(items))) => match entries_of(items) {
                Some(children) => Some(ItemView::Node { node: name, children }),
                None => None,
            },
            _ => None,
        },
    }
}

/// The entries that a list of objects denotes, in order; `None` where one
/// of them denotes nothing.
pub open spec fn entries_of(items: Seq<Node>) -> Option<Seq<ItemView>>
    decreases items, 0nat,
{
    if items.len() == 0 {
        Some(Seq::empty())
    } else {
        match (entries_of(items.drop_last()), entry_of(items.last())) {
            (Some(before), Some(entry)) => Some(before.push(entry)),
            _ => None,
        }
    }
}

/// The catalogue that a parsed value denotes.
pub open spec fn catalogue_of(root: Node) -> Result<Seq<ItemView>, CatalogueError> {
    match root {
        Node::List(items) => match entries_of(items) {
            Some(entries) => Ok(entries),
            None => Err(CatalogueError::BadEntry),
        },
        _ => Err(CatalogueError::NotAList),
    }
}

/// The catalogue that a text denotes.
pub open spec fn catalogue_of_text(text: Seq<char>) -> Result<Seq<ItemView>, CatalogueError> {
    match json_parsed(text) {
        Ok(root) => catalogue_of(root),
        Err(_) => Err(CatalogueError::Syntax),
    }
}

/// The nodes that a list of parsed values holds, item by item.
pub open spec fn json_nodes(list: Seq<serde_json::Value>) -> Seq<Node> {
    Seq::new(list.len(), |i: int| json_node(list[i]))
}

proof fn lemma_entries_none_sticks(items: Seq<Node>, k: int)
    requires
        0 <= k <= items.len(),
        entries_of(items.subrange(0, k)) is None,
    ensures
        entries_of(items) is None,
    decreases items.len() - k,
{
    if k < items.len() {
        assert(items.subrange(0, k + 1).drop_last() =~= items.subrange(0, k));
        lemma_entries_none_sticks(items, k + 1);
    } else {
        assert(items.subrange(0, k) =~= items);
    }
}

fn read_leaf(value: &serde_json::Value) -> (leaf: Option<ItemIDNode>)
    ensures
        match (leaf, leaf_of(json_node(*value))) {
            (Some(a), Some(b)) => a@ == b,
            (None, None) => true,
            _ => false,
        },
{
    let id = match json_get(value, "id") {
        Some(inner) => match json_text(inner) {
            Some(s) => s,
            None => return None,
        },
        None => return None,
    };
    let desc = match json_get(value, "desc") {
        Some(inner) => match json_text(inner) {
            Some(s) => s,
            None => return None,
        },
        None => return None,
    };
    match parse_item_id(id) {
        Some(value) => Some(ItemIDNode::Leaf { id: value, desc: String::from_str(desc) }),
        None => None,
    }
}

fn read_entry(value: &serde_json::Value) -> (entry: Option<ItemIDNode>)
    ensures
        match (entry, entry_of(json_node(*value))) {
            (Some(a), Some(b)) => a@ == b,
            (None, None) => true,
            _ => false,
        },
    decreases json_node(*value), 1nat,
{
    match read_leaf(value) {
        Some(leaf) => Some(leaf),
        None => {
            let name = match json_get(value, "node") {
                Some(inner) => match json_text(inner) {
                    Some(s) => s,
                    None => return None,
                },
                None => return None,
            };
            let list = match json_get(value, "children") {
                Some(inner) => match json_list(inner) {
                    Some(list) => list,
                    None => return None,
                },
                None => return None,
            };
            let ghost nodes = json_nodes(list@);
            assert(node_field(json_node(*value), "children"@) == Some(Node::List(nodes))) by {
                assert(node_field(json_node(*value), "children"@)->Some_0->List_0 =~= nodes);
            }
            match read_entries(list) {
                Some(children) => Some(ItemIDNode::Node { node: String::from_str(name), children }),
                None => None,
            }
        },
    }
}

fn read_entries(list: &Vec<serde_json::Value>) -> (entries: Option<Vec<ItemIDNode>>)
    ensures
        match (entries, entries_of(json_nodes(list@))) {
            (Some(a), Some(b)) => item_views(a@) == b,
            (None, None) => true,
            _ => false,
        },
    decreases json_nodes(list@), 0nat,
{
    let ghost nodes = json_nodes(list@);
    let mut out: Vec<ItemIDNode> = Vec::new();
    let mut i: usize = 0;
    assert(nodes.subrange(0, 0) =~= Seq::<Node>::empty());
    while i < list.len()
        invariant
            i <= list.len(),
            nodes == json_nodes(list@),
            entries_of(nodes.subrange(0, i as int)) == Some(item_views(out@)),
        decreases list.len() - i,
    {
        proof {
            assert(nodes.subrange(0, i + 1).drop_last() =~= nodes.subrange(0, i as int));
            assert(nodes.subrange(0, i + 1).last() == json_node(list@[i as int]));
            assert(nodes[i as int] == json_node(list@[i as int]));
        }
        match read_entry(&list[i]) {
            Some(entry) => {
                proof {
                    assert(out@.push(entry).drop_last() =~= out@);
                }
                out.push(entry);
            },
            None => {
                proof {
                    lemma_entries_none_sticks(nodes, i + 1);
                }
                return None;
            },
        }
        i = i + 1;
    }
    assert(nodes.subrange(0, list.len() as int) =~= nodes);
    Some(out)
}

/// Reads a catalogue out of a parsed JSON value.
pub fn catalogue_from_value(root: &serde_json::Value) -> (r: Result<Vec<ItemIDNode>, CatalogueError>)
    ensures
        match (r, catalogue_of(json_node(*root))) {
            (Ok(a), Ok(b)) => item_views(a@) == b,
            (Err(e), Err(f)) => e == f,
            _ => false,
        },
{
    match json_list(root) {
        None => Err(CatalogueError::NotAList),
        Some(list) => {
            assert(json_node(*root) == Node::List(json_nodes(list@))) by {
                assert(json_node(*root)->List_0 =~= json_nodes(list@));
            }
            match read_entries(list) {
                Some(entries) => Ok(entries),
                None => Err(CatalogueError::BadEntry),
            }
        },
    }
}

/// Parses the text of a catalogue.
pub fn parse_catalogue(text: &str) -> (r: Result<Vec<ItemIDNode>, CatalogueError>)
    ensures
        match (r, catalogue_of_text(text@)) {
            (Ok(a), Ok(b)) => item_views(a@) == b,
            (Err(e), Err(f)) => e == f,
            _ => false,
        },
{
    match json_parse(text) {
        Ok(root) => catalogue_from_value(&root),
        Err(_) => Err(CatalogueError::Syntax),
    }
}

} // verus!

//! VoiceOver snapshot: the hitboxes that carry [`AccessibilityProperties`], exposed to the
//! host through a query by index.

use vstd::prelude::*;
use crate::accessibility_properties::AccessibilityProperties;
use vstd::string::StringSliceAdditionalSpecFns;
use vstd::utf8::{encode_utf8, is_char_boundary, valid_utf8};

verus! {

broadcast use vstd::string::group_string_axioms;

/// A rectangle in pixels, each `f32` coordinate held as its IEEE-754 bit pattern
/// (`f32::to_bits`); the snapshot copies rectangles and never computes with them.
#[derive(Clone, Copy, Debug, PartialEq, Eq, Structural)]
pub struct BoundsBits {
    pub x: u32,
    pub y: u32,
    pub width: u32,
    pub height: u32,
}

/// A hit-test region of the last drawn frame, with its accessibility properties if any.
pub struct Hitbox {
    pub bounds: BoundsBits,
    pub accessibility: Option<AccessibilityProperties>,
}

/// One node of the accessibility snapshot.
pub struct StoredNode {
    pub bounds: BoundsBits,
    pub traits: u64,
    pub label: String,
    pub hint: Option<String>,
}

/// The node stored for a hitbox with bounds `b` and properties `p`.
pub open spec fn stored_node(b: BoundsBits, p: AccessibilityProperties) -> StoredNode {
    StoredNode { bounds: b, traits: p.traits, label: p.label, hint: p.hint }
}

/// The snapshot of a frame's hitboxes: the ones with accessibility properties, last
/// hitbox first (topmost first), as nodes.
pub open spec fn snapshot_spec(hitboxes: Seq<Hitbox>) -> Seq<StoredNode>
    decreases hitboxes.len(),
{
    if hitboxes.len() == 0 {
        Seq::empty()
    } else {
        let rest = snapshot_spec(hitboxes.drop_first());
        match hitboxes[0].accessibility {
            Some(p) => rest.push(stored_node(hitboxes[0].bounds, p)),
            None => rest,
        }
    }
}

/// The accessibility snapshot taken after each frame draw.
pub struct AccessibilitySnapshot {
    nodes: Vec<StoredNode>,
}

impl View for AccessibilitySnapshot {
    type V = Seq<StoredNode>;

    closed spec fn view(&self) -> Seq<StoredNode> {
        self.nodes@
    }
}

fn clone_hint(h: &Option<String>) -> (r: Option<String>)
    ensures
        r == *h,
{
    match h {
        Some(s) => Some(s.clone()),
        None => None,
    }
}

impl AccessibilitySnapshot {
    /// An empty snapshot (before the first frame).
    pub fn new() -> (s: Self)
        ensures
            s@ == Seq::<StoredNode>::empty(),
    {
        AccessibilitySnapshot { nodes: Vec::new() }
    }

    /// Replace the snapshot with the nodes of `hitboxes`: those with accessibility
    /// properties, in reverse order (the last drawn, topmost hitbox first).
    pub fn sync_from_hitboxes(&mut self, hitboxes: &[Hitbox])
        ensures
            final(self)@ == snapshot_spec(hitboxes@),
    {
        let mut next: Vec<StoredNode> = Vec::new();
        let len = hitboxes.len();
        let mut i: usize = len;
        while i > 0
            invariant
                0 <= i <= len,
                len == hitboxes@.len(),
                next@ == snapshot_spec(hitboxes@.subrange(i as int, len as int)),
            decreases i,
        {
            i = i - 1;
            let hb = &hitboxes[i];
            assert(hitboxes@.subrange(i as int, len as int).drop_first() =~= hitboxes@.subrange(
                i + 1,
                len as int,
            ));
            match &hb.accessibility {
                Some(props) => {
                    next.push(
                        StoredNode {
                            bounds: hb.bounds,
                            traits: props.traits,
                            label: props.label.clone(),
                            hint: clone_hint(&props.hint),
                        },
                    );
                },
                None => {},
            }
        }
        assert(hitboxes@.subrange(0, len as int) =~= hitboxes@);
        self.nodes = next;
    }

    /// The node at `index`, if there is one.
    pub fn node(&self, index: usize) -> (n: Option<&StoredNode>)
        ensures
            n == (if index < self@.len() {
                Some(&self@[index as int])
            } else {
                None
            }),
    {
        if index < self.nodes.len() {
            Some(&self.nodes[index])
        } else {
            None
        }
    }
}

/// Number of nodes in the last synced accessibility snapshot.
pub fn snapshot_node_count(snapshot: &AccessibilitySnapshot) -> (n: usize)
    ensures
        n == snapshot@.len(),
{
    snapshot.nodes.len()
}

/// The largest character boundary of `bytes` at or below `n` (0 when none is above 0).
pub open spec fn char_boundary_at_or_below(bytes: Seq<u8>, n: int) -> int
    decreases n,
{
    if n <= 0 {
        0
    } else if is_char_boundary(bytes, n) {
        n
    } else {
        char_boundary_at_or_below(bytes, n - 1)
    }
}

/// How many text bytes a buffer of `cap` bytes receives with a trailing NUL: none when
/// the buffer is empty, else the longest prefix that fits before the last byte and ends
/// on a character boundary, so that no character is cut.
pub open spec fn nul_written_len(cap: nat, text: Seq<u8>) -> nat {
    if cap == 0 {
        0
    } else {
        let fit: int = if text.len() <= cap - 1 {
            text.len() as int
        } else {
            cap - 1
        };
        char_boundary_at_or_below(text, fit) as nat
    }
}

/// `char_boundary_at_or_below(bytes, n)` is a boundary between 0 and `n`, and no index
/// above it up to `n` is one.
pub proof fn lemma_char_boundary_at_or_below(bytes: Seq<u8>, n: int)
    requires
        valid_utf8(bytes),
        0 <= n,
    ensures
        0 <= char_boundary_at_or_below(bytes, n) <= n,
        is_char_boundary(bytes, char_boundary_at_or_below(bytes, n)),
        forall|m: int|
            char_boundary_at_or_below(bytes, n) < m <= n ==> !#[trigger] is_char_boundary(
                bytes,
                m,
            ),
    decreases n,
{
    broadcast use vstd::utf8::is_char_boundary_start_end_of_seq;

    if n > 0 && !is_char_boundary(bytes, n) {
        lemma_char_boundary_at_or_below(bytes, n - 1);
    }
}

/// The buffer after writing `text`, truncated to fit, followed by a NUL byte; bytes past
/// the NUL are left as they were. An empty buffer is left as it was.
pub open spec fn nul_written(dest: Seq<u8>, text: Seq<u8>) -> Seq<u8> {
    if dest.len() == 0 {
        dest
    } else {
        let n = nul_written_len(dest.len(), text) as int;
        text.take(n) + seq![0u8] + dest.skip(n + 1)
    }
}

/// Writes the UTF-8 bytes of `text` into `dest`, truncated at a character boundary so
/// that a trailing NUL fits, and returns the number of text bytes written (0 for an empty
/// buffer). The bytes written are always valid UTF-8.
pub fn write_nul_terminated_utf8_slice(dest: &mut [u8], text: &str) -> (n: usize)
    ensures
        n == nul_written_len(old(dest)@.len(), text.spec_bytes()),
        final(dest)@ == nul_written(old(dest)@, text.spec_bytes()),
{
    broadcast use vstd::utf8::group_utf8_lib;

    if dest.len() == 0 {
        return 0;
    }
    let max_body = dest.len() - 1;
    let bytes = text.as_bytes();
    let fit = if bytes.len() <= max_body {
        bytes.len()
    } else {
        max_body
    };
    let mut n = fit;
    while !text.is_char_boundary(n)
        invariant
            0 <= n <= fit,
            bytes@ == text.spec_bytes(),
            valid_utf8(bytes@),
            char_boundary_at_or_below(bytes@, n as int) == char_boundary_at_or_below(
                bytes@,
                fit as int,
            ),
        decreases n,
    {
        n = n - 1;
    }
    let ghost orig = dest@;
    let mut i: usize = 0;
    while i < n
        invariant
            0 <= i <= n,
            n <= max_body,
            max_body + 1 == dest@.len(),
            n <= bytes@.len(),
            dest@.len() == orig.len(),
            forall|k: int| 0 <= k < i ==> dest@[k] == bytes@[k],
            forall|k: int| i <= k < dest@.len() ==> dest@[k] == orig[k],
        decreases n - i,
    {
        dest[i] = bytes[i];
        i = i + 1;
    }
    dest[n] = 0;
    assert(dest@ =~= nul_written(orig, text.spec_bytes()));
    n
}

/// What a query of the snapshot reports for one node.
#[derive(Clone, Copy, Debug, PartialEq, Eq, Structural)]
pub struct NodeQuery {
    /// The node's rectangle; all zero bits (`0.0`) when there is no such node.
    pub bounds: BoundsBits,
    /// The node's traits bitmask; 0 when there is no such node.
    pub traits: u64,
    /// Label bytes written to the label buffer.
    pub label_len: usize,
    /// Hint bytes written to the hint buffer.
    pub hint_len: usize,
}

/// The text of a node's hint: empty when it has none.
pub open spec fn hint_text(n: StoredNode) -> Seq<char> {
    match n.hint {
        Some(h) => h@,
        None => Seq::empty(),
    }
}

impl AccessibilitySnapshot {
    /// Reports node `index`: its rectangle and traits, and its label and hint written
    /// NUL-terminated (truncated to fit) into the two buffers. An out-of-range index
    /// reports a zero rectangle, zero traits and zero lengths and writes nothing.
    pub fn query_node(&self, index: usize, label_buf: &mut [u8], hint_buf: &mut [u8]) -> (q:
        NodeQuery)
        ensures
            index >= self@.len() ==> {
                &&& q.bounds == BoundsBits { x: 0, y: 0, width: 0, height: 0 }
                &&& q.traits == 0
                &&& q.label_len == 0
                &&& q.hint_len == 0
                &&& final(label_buf)@ == old(label_buf)@
                &&& final(hint_buf)@ == old(hint_buf)@
            },
            index < self@.len() ==> {
                let node = self@[index as int];
                &&& q.bounds == node.bounds
                &&& q.traits == node.traits
                &&& q.label_len == nul_written_len(
                    old(label_buf)@.len(),
                    vstd::utf8::encode_utf8(node.label@),
                )
                &&& final(label_buf)@ == nul_written(
                    old(label_buf)@,
                    vstd::utf8::encode_utf8(node.label@),
                )
                &&& q.hint_len == nul_written_len(
                    old(hint_buf)@.len(),
                    vstd::utf8::encode_utf8(hint_text(node)),
                )
                &&& final(hint_buf)@ == nul_written(
                    old(hint_buf)@,
                    vstd::utf8::encode_utf8(hint_text(node)),
                )
            },
    {
        if index >= self.nodes.len() {
            return NodeQuery {
                bounds: BoundsBits { x: 0, y: 0, width: 0, height: 0 },
                traits: 0,
                label_len: 0,
                hint_len: 0,
            };
        }
        let node = &self.nodes[index];
        let label_len = write_nul_terminated_utf8_slice(label_buf, node.label.as_str());
        let empty = String::new();
        let hint_str: &str = match &node.hint {
            Some(h) => h.as_str(),
            None => empty.as_str(),
        };
        let hint_len = write_nul_terminated_utf8_slice(hint_buf, hint_str);
        NodeQuery { bounds: node.bounds, traits: node.traits, label_len, hint_len }
    }
}

/// Each node of a snapshot comes from one hitbox: a snapshot never has more nodes than
/// there were hitboxes.
pub proof fn lemma_snapshot_len(hitboxes: Seq<Hitbox>)
    ensures
        snapshot_spec(hitboxes).len() <= hitboxes.len(),
    decreases hitboxes.len(),
{
    if hitboxes.len() > 0 {
        lemma_snapshot_len(hitboxes.drop_first());
    }
}

/// A stored node copies the hitbox's bounds and the properties' traits, label and hint.
pub proof fn lemma_stored_node_fields(b: BoundsBits, p: AccessibilityProperties)
    ensures
        stored_node(b, p).bounds == b,
        stored_node(b, p).traits == p.traits,
        stored_node(b, p).label == p.label,
        stored_node(b, p).hint == p.hint,
{
}

/// A hitbox in front of others adds its node after theirs when it has accessibility
/// properties, and nothing when it has none.
pub proof fn lemma_snapshot_front(x: Hitbox, rest: Seq<Hitbox>)
    ensures
        x.accessibility is None ==> snapshot_spec(seq![x] + rest) == snapshot_spec(rest),
        x.accessibility matches Some(p) ==> snapshot_spec(seq![x] + rest) == snapshot_spec(
            rest,
        ).push(stored_node(x.bounds, p)),
{
    assert((seq![x] + rest).drop_first() =~= rest);
}

/// When every hitbox carries accessibility properties, the snapshot holds one node per
/// hitbox in reverse order: node `i` comes from hitbox `len - 1 - i`.
pub proof fn lemma_snapshot_reverses(hitboxes: Seq<Hitbox>)
    requires
        forall|i: int| 0 <= i < hitboxes.len() ==> (#[trigger] hitboxes[i]).accessibility is Some,
    ensures
        snapshot_spec(hitboxes).len() == hitboxes.len(),
        forall|i: int|
            0 <= i < hitboxes.len() ==> #[trigger] snapshot_spec(hitboxes)[i] == stored_node(
                hitboxes[hitboxes.len() - 1 - i].bounds,
                hitboxes[hitboxes.len() - 1 - i].accessibility->0,
            ),
    decreases hitboxes.len(),
{
    if hitboxes.len() > 0 {
        let tail = hitboxes.drop_first();
        assert forall|i: int| 0 <= i < tail.len() implies (#[trigger] tail[i]).accessibility is Some by {
            assert(tail[i] == hitboxes[i + 1]);
        }
        lemma_snapshot_reverses(tail);
        assert(hitboxes[0].accessibility is Some);
        assert forall|i: int| 0 <= i < hitboxes.len() implies #[trigger] snapshot_spec(hitboxes)[i]
            == stored_node(
            hitboxes[hitboxes.len() - 1 - i].bounds,
            hitboxes[hitboxes.len() - 1 - i].accessibility->0,
        ) by {
            if i < tail.len() {
                assert(snapshot_spec(tail)[i] == stored_node(
                    tail[tail.len() - 1 - i].bounds,
                    tail[tail.len() - 1 - i].accessibility->0,
                ));
                assert(tail[tail.len() - 1 - i] == hitboxes[hitboxes.len() - 1 - i]);
            }
        }
    }
}

/// After a write of the UTF-8 encoding of `chars` into a non-empty buffer: the buffer
/// keeps its length, the count is below it, the byte at the count is NUL, the bytes
/// before it are the text's first bytes and are valid UTF-8, and the prefix is the longest
/// one that fits without cutting a character (the whole text when it fits).
pub proof fn lemma_nul_written(dest: Seq<u8>, chars: Seq<char>)
    requires
        dest.len() > 0,
    ensures
        ({
            let text = encode_utf8(chars);
            let n = nul_written_len(dest.len(), text) as int;
            let r = nul_written(dest, text);
            &&& r.len() == dest.len()
            &&& n < dest.len()
            &&& r[n] == 0u8
            &&& r.take(n) == text.take(n)
            &&& valid_utf8(r.take(n))
            &&& is_char_boundary(text, n)
            &&& forall|m: int|
                n < m <= text.len() && m < dest.len() ==> !#[trigger] is_char_boundary(text, m)
            &&& text.len() < dest.len() ==> n == text.len()
            &&& forall|k: int| n < k < dest.len() ==> #[trigger] r[k] == dest[k]
        }),
{
    broadcast use vstd::utf8::group_utf8_lib;

    let text = encode_utf8(chars);
    let fit: int = if text.len() <= dest.len() - 1 {
        text.len() as int
    } else {
        dest.len() - 1
    };
    lemma_char_boundary_at_or_below(text, fit);
    let n = nul_written_len(dest.len(), text) as int;
    let r = nul_written(dest, text);
    assert(r.take(n) =~= text.take(n));
    assert(text.take(n) =~= text.subrange(0, n));
    assert(valid_utf8(text.subrange(0, n)));
}

/// A node's hint text is its hint's characters, or nothing when it has no hint.
pub proof fn lemma_hint_text(n: StoredNode)
    ensures
        n.hint matches Some(h) ==> hint_text(n) == h@,
        n.hint is None ==> hint_text(n) == Seq::<char>::empty(),
{
}

} // verus!

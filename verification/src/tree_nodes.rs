//! How a passive tree node is drawn: its frame sprite, its tooltip header and
//! its fallback colour, chosen from its type and state.

use vstd::prelude::*;
use crate::colors::Rgb;
use crate::text::{decimal, decimal_chars, string_of};

verus! {

/// The kinds of passive tree node.
#[derive(Clone, Copy, PartialEq, Eq, Structural, Debug)]
pub enum NodeType {
    Normal,
    Notable,
    Keystone,
    Socket,
    Mastery,
    ClassStart,
    AscendClassStart,
}

/// The frame sprites drawn around a node.
#[derive(Clone, Copy, PartialEq, Eq, Structural, Debug)]
pub enum NodeFrame {
    NormalAllocated,
    NormalUnallocated,
    NotableAllocated,
    NotableUnallocated,
    KeystoneAllocated,
    KeystoneUnallocated,
    JewelAllocated,
    JewelUnallocated,
    MasteryAllocated,
    MasteryUnallocated,
}

/// The frame of a node: the one of its kind (class starts use the normal
/// one), in its allocated or unallocated form.
pub open spec fn frame_of(node_type: NodeType, allocated: bool) -> NodeFrame {
    match node_type {
        NodeType::Normal | NodeType::ClassStart | NodeType::AscendClassStart => if allocated {
            NodeFrame::NormalAllocated
        } else {
            NodeFrame::NormalUnallocated
        },
        NodeType::Notable => if allocated {
            NodeFrame::NotableAllocated
        } else {
            NodeFrame::NotableUnallocated
        },
        NodeType::Keystone => if allocated {
            NodeFrame::KeystoneAllocated
        } else {
            NodeFrame::KeystoneUnallocated
        },
        NodeType::Socket => if allocated {
            NodeFrame::JewelAllocated
        } else {
            NodeFrame::JewelUnallocated
        },
        NodeType::Mastery => if allocated {
            NodeFrame::MasteryAllocated
        } else {
            NodeFrame::MasteryUnallocated
        },
    }
}

/// Whether `f` is the frame of an allocated node.
pub open spec fn is_allocated_frame(f: NodeFrame) -> bool {
    match f {
        NodeFrame::NormalAllocated | NodeFrame::NotableAllocated | NodeFrame::KeystoneAllocated
        | NodeFrame::JewelAllocated | NodeFrame::MasteryAllocated => true,
        _ => false,
    }
}

/// The kind of node frame `f` is drawn around: 0 normal, 1 notable,
/// 2 keystone, 3 jewel socket, 4 mastery.
pub open spec fn frame_family(f: NodeFrame) -> int {
    match f {
        NodeFrame::NormalAllocated | NodeFrame::NormalUnallocated => 0,
        NodeFrame::NotableAllocated | NodeFrame::NotableUnallocated => 1,
        NodeFrame::KeystoneAllocated | NodeFrame::KeystoneUnallocated => 2,
        NodeFrame::JewelAllocated | NodeFrame::JewelUnallocated => 3,
        NodeFrame::MasteryAllocated | NodeFrame::MasteryUnallocated => 4,
    }
}

/// The frame kind that node type `t` takes: class starts are drawn as normal
/// nodes.
pub open spec fn type_family(t: NodeType) -> int {
    match t {
        NodeType::Normal | NodeType::ClassStart | NodeType::AscendClassStart => 0,
        NodeType::Notable => 1,
        NodeType::Keystone => 2,
        NodeType::Socket => 3,
        NodeType::Mastery => 4,
    }
}

/// A node's frame shows its state and its kind: for every node type, the
/// frame is an allocated one exactly when the node is allocated, it is of
/// the node's kind, and the allocated and unallocated frames differ.
pub proof fn lemma_frame_shows_state(t: NodeType, allocated: bool)
    ensures
        is_allocated_frame(frame_of(t, allocated)) == allocated,
        frame_family(frame_of(t, allocated)) == type_family(t),
        frame_of(t, true) != frame_of(t, false),
{
}

/// The frame sprite for a node of type `node_type`.
pub fn frame_for(node_type: NodeType, is_allocated: bool) -> (f: NodeFrame)
    ensures
        f == frame_of(node_type, is_allocated),
        is_allocated_frame(f) == is_allocated,
        frame_family(f) == type_family(node_type),
{
    match node_type {
        NodeType::Normal | NodeType::ClassStart | NodeType::AscendClassStart => if is_allocated {
            NodeFrame::NormalAllocated
        } else {
            NodeFrame::NormalUnallocated
        },
        NodeType::Notable => if is_allocated {
            NodeFrame::NotableAllocated
        } else {
            NodeFrame::NotableUnallocated
        },
        NodeType::Keystone => if is_allocated {
            NodeFrame::KeystoneAllocated
        } else {
            NodeFrame::KeystoneUnallocated
        },
        NodeType::Socket => if is_allocated {
            NodeFrame::JewelAllocated
        } else {
            NodeFrame::JewelUnallocated
        },
        NodeType::Mastery => if is_allocated {
            NodeFrame::MasteryAllocated
        } else {
            NodeFrame::MasteryUnallocated
        },
    }
}

/// The header images above a node's tooltip.
#[derive(Clone, Copy, PartialEq, Eq, Structural, Debug)]
pub enum TooltipHeader {
    Passive,
    Notable,
    Keystone,
    Jewel,
    Ascendancy,
    Mastery,
    MasteryAllocated,
}

/// The tooltip header of a node: ascendancy nodes of the normal kind get the
/// ascendancy header, masteries one for each state, class starts the passive
/// one.
pub open spec fn header_of(node_type: NodeType, in_ascendancy: bool, allocated: bool) -> TooltipHeader {
    match node_type {
        NodeType::Normal => if in_ascendancy {
            TooltipHeader::Ascendancy
        } else {
            TooltipHeader::Passive
        },
        NodeType::Notable => TooltipHeader::Notable,
        NodeType::Keystone => TooltipHeader::Keystone,
        NodeType::Socket => TooltipHeader::Jewel,
        NodeType::Mastery => if allocated {
            TooltipHeader::MasteryAllocated
        } else {
            TooltipHeader::Mastery
        },
        NodeType::ClassStart | NodeType::AscendClassStart => TooltipHeader::Passive,
    }
}

/// Only a mastery's tooltip header shows whether it is allocated, and only a
/// normal node's shows whether it belongs to an ascendancy; notables,
/// keystones, jewel sockets and masteries each get a header of their own,
/// unlike any other node type's.
pub proof fn lemma_header_shows_kind(t: NodeType, u: NodeType, asc: bool, a: bool, b: bool)
    ensures
        t != NodeType::Mastery ==> header_of(t, asc, a) == header_of(t, asc, b),
        t != NodeType::Normal ==> header_of(t, true, a) == header_of(t, false, a),
        header_of(NodeType::Mastery, asc, true) != header_of(NodeType::Mastery, asc, false),
        header_of(NodeType::Normal, true, a) != header_of(NodeType::Normal, false, a),
        (t == NodeType::Notable || t == NodeType::Keystone || t == NodeType::Socket || t
            == NodeType::Mastery) && t != u ==> header_of(t, asc, a) != header_of(u, asc, b),
{
}

/// The tooltip header for a node of type `node_type`, which belongs to an
/// ascendancy when `in_ascendancy`.
pub fn header_for(node_type: NodeType, in_ascendancy: bool, is_allocated: bool) -> (h: TooltipHeader)
    ensures
        h == header_of(node_type, in_ascendancy, is_allocated),
{
    match node_type {
        NodeType::Normal => if in_ascendancy {
            TooltipHeader::Ascendancy
        } else {
            TooltipHeader::Passive
        },
        NodeType::Notable => TooltipHeader::Notable,
        NodeType::Keystone => TooltipHeader::Keystone,
        NodeType::Socket => TooltipHeader::Jewel,
        NodeType::Mastery => if is_allocated {
            TooltipHeader::MasteryAllocated
        } else {
            TooltipHeader::Mastery
        },
        NodeType::ClassStart | NodeType::AscendClassStart => TooltipHeader::Passive,
    }
}

/// The colour a node is drawn in when no sprite is available.
pub open spec fn node_colour(node_type: NodeType) -> Rgb {
    match node_type {
        NodeType::Normal => Rgb { r: 120, g: 120, b: 120 },
        NodeType::Notable => Rgb { r: 200, g: 180, b: 100 },
        NodeType::Keystone => Rgb { r: 220, g: 160, b: 60 },
        NodeType::Socket => Rgb { r: 100, g: 180, b: 220 },
        NodeType::Mastery => Rgb { r: 180, g: 140, b: 200 },
        NodeType::ClassStart | NodeType::AscendClassStart => Rgb { r: 200, g: 200, b: 200 },
    }
}

/// The fallback colour of a node of type `node_type`.
pub fn node_type_color(node_type: NodeType) -> (c: Rgb)
    ensures
        c == node_colour(node_type),
{
    match node_type {
        NodeType::Normal => Rgb { r: 120, g: 120, b: 120 },
        NodeType::Notable => Rgb { r: 200, g: 180, b: 100 },
        NodeType::Keystone => Rgb { r: 220, g: 160, b: 60 },
        NodeType::Socket => Rgb { r: 100, g: 180, b: 220 },
        NodeType::Mastery => Rgb { r: 180, g: 140, b: 200 },
        NodeType::ClassStart | NodeType::AscendClassStart => Rgb { r: 200, g: 200, b: 200 },
    }
}

/// The search match to show after a step forward or back through `m`
/// matches from `cur`: the next or previous one, wrapping around; the first
/// or last when none was shown yet.
pub open spec fn search_step(cur: Option<usize>, m: nat, forward: bool) -> nat {
    match cur {
        Some(i) => if forward {
            ((i + 1) % (m as int)) as nat
        } else {
            ((i + m - 1) % (m as int)) as nat
        },
        None => if forward {
            0
        } else {
            (m - 1) as nat
        },
    }
}

/// Stepping through `m` matches stays among them, a step back undoes a step
/// forward and a step forward undoes a step back, and `m` steps forward from
/// the first match come back to it.
pub proof fn lemma_search_step_round_trip(i: usize, m: nat)
    requires
        i < m,
        m <= usize::MAX,
    ensures
        search_step(Some(i), m, true) < m,
        search_step(Some(i), m, false) < m,
        search_step(Some(search_step(Some(i), m, true) as usize), m, false) == i,
        search_step(Some(search_step(Some(i), m, false) as usize), m, true) == i,
        search_step(None, m, true) == 0,
        search_step(None, m, false) == m - 1,
{
    let f = search_step(Some(i), m, true);
    let b = search_step(Some(i), m, false);
    if i + 1 < m {
        assert((i + 1) % (m as int) == i + 1) by (nonlinear_arith)
            requires
                0 <= i + 1 < m,
        ;
        assert(f == i + 1);
    } else {
        assert((i + 1) % (m as int) == 0) by (nonlinear_arith)
            requires
                i + 1 == m,
                m > 0,
        ;
        assert(f == 0);
    }
    if i > 0 {
        assert((i + m - 1) % (m as int) == i - 1) by (nonlinear_arith)
            requires
                0 < i < m,
        ;
        assert(b == i - 1);
    } else {
        assert((i + m - 1) % (m as int) == m - 1) by (nonlinear_arith)
            requires
                i == 0,
                m > 0,
        ;
        assert(b == m - 1);
    }
    assert((f as usize) as int == f);
    assert((b as usize) as int == b);
    if f > 0 {
        assert((f + m - 1) % (m as int) == f - 1) by (nonlinear_arith)
            requires
                0 < f < m,
        ;
    } else {
        assert((f + m - 1) % (m as int) == m - 1) by (nonlinear_arith)
            requires
                f == 0,
                m > 0,
        ;
    }
    if b + 1 < m {
        assert(((b + 1) as int) % (m as int) == b + 1) by (nonlinear_arith)
            requires
                0 <= b + 1 < m,
        ;
    } else {
        assert(((b + 1) as int) % (m as int) == 0) by (nonlinear_arith)
            requires
                b + 1 == m,
                m > 0,
        ;
    }
}

/// The next search match to centre on, among `m` matches.
pub fn next_search_cycle(cur: Option<usize>, m: usize, forward: bool) -> (r: Option<usize>)
    requires
        m > 0,
    ensures
        r matches Some(k) && k as nat == search_step(cur, m as nat, forward) && k < m,
{
    match cur {
        Some(i) => {
            let j = i % m;
            proof {
                assert((i + 1) % (m as int) == (j + 1) % (m as int)) by (nonlinear_arith)
                    requires
                        j == i % m,
                        m > 0,
                ;
                assert((i + m - 1) % (m as int) == (j + m - 1) % (m as int)) by (nonlinear_arith)
                    requires
                        j == i % m,
                        m > 0,
                ;
                assert(j < m);
                assert((j + 1) % (m as int) == if j + 1 == m {
                    0
                } else {
                    j + 1
                }) by (nonlinear_arith)
                    requires
                        j < m,
                        m > 0,
                ;
                assert((j + m - 1) % (m as int) == if j == 0 {
                    m - 1
                } else {
                    j - 1
                }) by (nonlinear_arith)
                    requires
                        j < m,
                        m > 0,
                ;
            }
            if forward {
                Some(if j + 1 == m {
                    0
                } else {
                    j + 1
                })
            } else {
                Some(if j == 0 {
                    m - 1
                } else {
                    j - 1
                })
            }
        },
        None => if forward {
            Some(0)
        } else {
            Some(m - 1)
        },
    }
}

/// The match count beside the search box: `i / n matches` once match `i`
/// (from 1) is shown, else `n matches`.
pub open spec fn search_status_of(count: nat, cycle: Option<usize>) -> Seq<char> {
    match cycle {
        Some(i) => decimal((i + 1) as nat) + " / "@ + decimal(count) + " matches"@,
        None => decimal(count) + " matches"@,
    }
}

/// The match count line for `count` matches, of which `cycle` is shown.
pub fn search_status(count: usize, cycle: Option<usize>) -> (r: String)
    requires
        cycle matches Some(i) ==> i < usize::MAX,
    ensures
        r@ == search_status_of(count as nat, cycle),
{
    let mut r = String::new();
    match cycle {
        Some(i) => {
            r.push_str(string_of(&decimal_chars((i + 1) as u64)).as_str());
            r.push_str(" / ");
            r.push_str(string_of(&decimal_chars(count as u64)).as_str());
            r.push_str(" matches");
        },
        None => {
            r.push_str(string_of(&decimal_chars(count as u64)).as_str());
            r.push_str(" matches");
        },
    }
    r
}

/// What a click on the tree does.
#[derive(Clone, Copy, PartialEq, Eq, Structural, Debug)]
pub enum ClickAction {
    /// Go to the Items tab (right click on a jewel socket).
    OpenItems,
    /// Open the mastery effect chooser.
    ChooseMastery,
    /// Allocate or deallocate the node.
    Toggle,
    /// Nothing.
    Ignore,
}

/// The action of a click on a node of type `node_type` (none when the node
/// is unknown): a right click on a socket opens the items, a click on an
/// unallocated mastery or a right click on an allocated one opens the
/// chooser, any other left click toggles the node.
pub open spec fn click_action_of(node_type: Option<NodeType>, is_allocated: bool, is_right: bool) -> ClickAction {
    let is_socket = node_type == Some(NodeType::Socket);
    let is_mastery = node_type == Some(NodeType::Mastery);
    let allocated = node_type is Some && is_allocated;
    if is_socket && is_right {
        ClickAction::OpenItems
    } else if is_mastery && (!allocated || is_right) {
        ClickAction::ChooseMastery
    } else if !is_right {
        ClickAction::Toggle
    } else {
        ClickAction::Ignore
    }
}

/// What a click on a node does.
pub fn click_action(node_type: Option<NodeType>, is_allocated: bool, is_right: bool) -> (r:
    ClickAction)
    ensures
        r == click_action_of(node_type, is_allocated, is_right),
{
    let is_socket = match node_type {
        Some(NodeType::Socket) => true,
        _ => false,
    };
    let is_mastery = match node_type {
        Some(NodeType::Mastery) => true,
        _ => false,
    };
    let allocated = node_type.is_some() && is_allocated;
    if is_socket && is_right {
        ClickAction::OpenItems
    } else if is_mastery && (!allocated || is_right) {
        ClickAction::ChooseMastery
    } else if !is_right {
        ClickAction::Toggle
    } else {
        ClickAction::Ignore
    }
}

} // verus!

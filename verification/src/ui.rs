//! The decorative panel that is laid out once at startup.
//!
//! Nodes live in one store in the order in which they were added; a node names its parent by
//! position, and the children of a node are painted in that order.

use vstd::prelude::*;
use vstd::string::StringExecFns;

verus! {

/// A length of the layout. Pixels, percentages and viewport fractions are whole numbers.
#[derive(Clone, Copy, Debug, PartialEq, Eq, Structural)]
pub enum Val {
    Auto,
    Px(u32),
    Percent(u32),
    VMin(u32),
}

/// How the children are spread along the main axis.
#[derive(Clone, Copy, Debug, PartialEq, Eq, Structural)]
pub enum JustifyContent {
    Default,
    Center,
    SpaceBetween,
}

/// How the children are set along the cross axis.
#[derive(Clone, Copy, Debug, PartialEq, Eq, Structural)]
pub enum AlignItems {
    Default,
    Center,
    FlexStart,
}

/// How the node itself is set along its parent's cross axis.
#[derive(Clone, Copy, Debug, PartialEq, Eq, Structural)]
pub enum AlignSelf {
    Auto,
    Stretch,
}

/// The main axis.
#[derive(Clone, Copy, Debug, PartialEq, Eq, Structural)]
pub enum FlexDirection {
    Row,
    Column,
}

/// Whether the node takes part in its parent's layout or is placed by offsets.
#[derive(Clone, Copy, Debug, PartialEq, Eq, Structural)]
pub enum PositionType {
    Relative,
    Absolute,
}

/// Whether the node is laid out at all.
#[derive(Clone, Copy, Debug, PartialEq, Eq, Structural)]
pub enum Display {
    Flex,
    Hidden,
}

/// What happens to content that does not fit.
#[derive(Clone, Copy, Debug, PartialEq, Eq, Structural)]
pub enum Overflow {
    Visible,
    ClipY,
}

/// A colour with its four channels in hundredths of full intensity.
#[derive(Clone, Copy, Debug, PartialEq, Eq, Structural)]
pub struct Color {
    pub red: u8,
    pub green: u8,
    pub blue: u8,
    pub alpha: u8,
}

/// The layout of one node.
#[derive(Clone, Copy, Debug, PartialEq, Eq, Structural)]
pub struct Style {
    pub display: Display,
    pub position_type: PositionType,
    pub overflow: Overflow,
    pub flex_direction: FlexDirection,
    pub justify_content: JustifyContent,
    pub align_items: AlignItems,
    pub align_self: AlignSelf,
    pub width: Val,
    pub height: Val,
    pub left: Val,
    pub bottom: Val,
    /// The border on all four sides.
    pub border: Val,
    pub margin_top: Val,
}

/// What a node shows.
#[derive(Clone, Debug, PartialEq, Eq)]
pub enum Content {
    /// A plain box.
    Panel,
    /// A line of text that labels something, set in the font at `font`.
    Label { text: String, font: String, font_size: u32 },
    /// The image at `path`.
    Image { path: String },
    /// Text for assistive technology; it is never drawn.
    AltText { text: String },
}

/// One node of the panel.
#[derive(Clone, Debug, PartialEq, Eq)]
pub struct Node {
    /// The position of the parent in the store; `None` for a root.
    pub parent: Option<usize>,
    pub style: Style,
    /// The fill; `None` leaves the node transparent.
    pub background: Option<Color>,
    /// The colour of the border; `None` leaves it transparent.
    pub border_color: Option<Color>,
    pub content: Content,
}

/// [`Content`] with its texts as sequences of characters.
pub enum ContentView {
    Panel,
    Label { text: Seq<char>, font: Seq<char>, font_size: u32 },
    Image { path: Seq<char> },
    AltText { text: Seq<char> },
}

/// [`Node`] as a mathematical value.
pub struct NodeView {
    pub parent: Option<nat>,
    pub style: Style,
    pub background: Option<Color>,
    pub border_color: Option<Color>,
    pub content: ContentView,
}

impl View for Content {
    type V = ContentView;

    open spec fn view(&self) -> ContentView {
        match *self {
            Content::Panel => ContentView::Panel,
            Content::Label { text, font, font_size } => ContentView::Label {
                text: text@,
                font: font@,
                font_size,
            },
            Content::Image { path } => ContentView::Image { path: path@ },
            Content::AltText { text } => ContentView::AltText { text: text@ },
        }
    }
}

impl View for Node {
    type V = NodeView;

    open spec fn view(&self) -> NodeView {
        NodeView {
            parent: match self.parent {
                Some(p) => Some(p as nat),
                None => None,
            },
            style: self.style,
            background: self.background,
            border_color: self.border_color,
            content: self.content@,
        }
    }
}

/// The font of every label.
pub const FONT: &'static str = "fonts/FiraSans-Bold.ttf";

/// The image of the logo.
pub const LOGO: &'static str = "branding/bevy_logo_dark_big.png";

/// The layout that a node has where nothing else is said.
pub open spec fn plain() -> Style {
    Style {
        display: Display::Flex,
        position_type: PositionType::Relative,
        overflow: Overflow::Visible,
        flex_direction: FlexDirection::Row,
        justify_content: JustifyContent::Default,
        align_items: AlignItems::Default,
        align_self: AlignSelf::Auto,
        width: Val::Auto,
        height: Val::Auto,
        left: Val::Auto,
        bottom: Val::Auto,
        border: Val::Px(0),
        margin_top: Val::Px(0),
    }
}

/// An opaque colour.
pub open spec fn rgb(red: u8, green: u8, blue: u8) -> Color {
    Color { red, green, blue, alpha: 100 }
}

/// A box under `parent` with the given layout and fill.
pub open spec fn panel(parent: Option<nat>, style: Style, background: Option<Color>) -> NodeView {
    NodeView { parent, style, background, border_color: None, content: ContentView::Panel }
}

/// A label under `parent` in the panel's font.
pub open spec fn label(parent: nat, text: Seq<char>, font_size: u32) -> NodeView {
    NodeView {
        parent: Some(parent),
        style: plain(),
        background: None,
        border_color: None,
        content: ContentView::Label { text, font: FONT@, font_size },
    }
}

/// The decimal digit `d` as text.
pub open spec fn digit(d: nat) -> Seq<char> {
    if d == 0 {
        "0"@
    } else if d == 1 {
        "1"@
    } else if d == 2 {
        "2"@
    } else if d == 3 {
        "3"@
    } else if d == 4 {
        "4"@
    } else if d == 5 {
        "5"@
    } else if d == 6 {
        "6"@
    } else if d == 7 {
        "7"@
    } else if d == 8 {
        "8"@
    } else {
        "9"@
    }
}

/// The number `n` written in decimal, without leading zeros.
pub open spec fn decimal(n: nat) -> Seq<char>
    decreases n,
{
    if n < 10 {
        digit(n)
    } else {
        decimal(n / 10) + digit(n % 10)
    }
}

/// The text of the list item with the given number.
pub open spec fn item_text(number: nat) -> Seq<char> {
    "Item "@ + decimal(number)
}

fn digit_str(d: u32) -> (s: &'static str)
    requires
        d < 10,
    ensures
        s@ == digit(d as nat),
{
    if d == 0 {
        "0"
    } else if d == 1 {
        "1"
    } else if d == 2 {
        "2"
    } else if d == 3 {
        "3"
    } else if d == 4 {
        "4"
    } else if d == 5 {
        "5"
    } else if d == 6 {
        "6"
    } else if d == 7 {
        "7"
    } else if d == 8 {
        "8"
    } else {
        "9"
    }
}

fn push_decimal(text: &mut String, n: u32)
    ensures
        final(text)@ == old(text)@ + decimal(n as nat),
    decreases n,
{
    if n >= 10 {
        push_decimal(text, n / 10);
    }
    text.append(digit_str(n % 10));
}

/// The text of the list item with the given number: the word `Item`, a space, and the
/// number in decimal.
pub fn item_label(number: u32) -> (text: String)
    ensures
        text@ == item_text(number as nat),
{
    let mut text = String::from_str("Item ");
    push_decimal(&mut text, number);
    text
}

/// The entries of the scrolling list.
pub const LIST_ITEMS: u32 = 30;

/// The layout of a node that fills its parent.
pub open spec fn filling() -> Style {
    Style { width: Val::Percent(100), height: Val::Percent(100), ..plain() }
}

/// One of the squares laid over the red one: as large as its parent and moved up and to
/// the right by `offset` pixels.
pub open spec fn overlay(parent: nat, offset: u32, background: Color) -> NodeView {
    panel(
        Some(parent),
        Style {
            position_type: PositionType::Absolute,
            left: Val::Px(offset),
            bottom: Val::Px(offset),
            ..filling()
        },
        Some(background),
    )
}

/// The scrolling list as it is added under `parent` to a store of `first` nodes: a viewport
/// half as high as its parent that clips what does not fit, in it the panel that moves, and
/// in that [`LIST_ITEMS`] labels numbered from 0.
pub open spec fn list_with_overflow(first: nat, parent: nat) -> Seq<NodeView> {
    seq![
        panel(
            Some(parent),
            Style {
                flex_direction: FlexDirection::Column,
                align_self: AlignSelf::Stretch,
                height: Val::Percent(50),
                overflow: Overflow::ClipY,
                ..plain()
            },
            Some(rgb(10, 10, 10)),
        ),
        panel(
            Some(first),
            Style {
                flex_direction: FlexDirection::Column,
                align_items: AlignItems::Center,
                ..plain()
            },
            None,
        ),
    ] + Seq::new(LIST_ITEMS as nat, |i: int| label(first + 1, item_text(i as nat), 20))
}

/// The side bar as it is added under `parent` to a store of `first` nodes: a dark column
/// 200 pixels wide with the title and the scrolling list.
pub open spec fn side_bar(first: nat, parent: nat) -> Seq<NodeView> {
    seq![
        panel(
            Some(parent),
            Style {
                flex_direction: FlexDirection::Column,
                justify_content: JustifyContent::Center,
                align_items: AlignItems::Center,
                width: Val::Px(200),
                ..plain()
            },
            Some(rgb(15, 15, 15)),
        ),
        label(first, "Scrolling list"@, 25),
    ] + list_with_overflow(first + 2, first)
}

/// The bordered box as it is added under `parent` to a store of `first` nodes: a square
/// of 200 pixels with a green border of 20, filled by a lighter square.
pub open spec fn bordered_box(first: nat, parent: nat) -> Seq<NodeView> {
    seq![
        NodeView {
            border_color: Some(rgb(0, 100, 0)),
            ..panel(
                Some(parent),
                Style {
                    width: Val::Px(200),
                    height: Val::Px(200),
                    position_type: PositionType::Absolute,
                    left: Val::Px(210),
                    bottom: Val::Px(10),
                    border: Val::Px(20),
                    ..plain()
                },
                Some(rgb(40, 40, 100)),
            )
        },
        panel(Some(first), filling(), Some(rgb(80, 80, 100))),
    ]
}

/// The five squares that show the paint order, as they are added under `parent` to a
/// store of `first` nodes: in a centring frame a red square of 100 pixels and, as its
/// children from back to front, four paler squares, each 20 pixels further up and to the
/// right, the last one translucent.
pub open spec fn paint_order_squares(first: nat, parent: nat) -> Seq<NodeView> {
    seq![
        panel(
            Some(parent),
            Style {
                position_type: PositionType::Absolute,
                align_items: AlignItems::Center,
                justify_content: JustifyContent::Center,
                ..filling()
            },
            None,
        ),
        panel(
            Some(first),
            Style { width: Val::Px(100), height: Val::Px(100), ..plain() },
            Some(rgb(100, 0, 0)),
        ),
        overlay(first + 1, 20, rgb(100, 30, 30)),
        overlay(first + 1, 40, rgb(100, 50, 50)),
        overlay(first + 1, 60, rgb(100, 70, 70)),
        overlay(first + 1, 80, Color { red: 100, green: 90, blue: 90, alpha: 40 }),
    ]
}

/// The logo as it is added under `parent` to a store of `first` nodes: a frame that
/// centres it at the top, the image on white, and under the image its alternative text,
/// which takes no room.
pub open spec fn logo(first: nat, parent: nat) -> Seq<NodeView> {
    seq![
        panel(
            Some(parent),
            Style {
                width: Val::Percent(100),
                position_type: PositionType::Absolute,
                justify_content: JustifyContent::Center,
                align_items: AlignItems::FlexStart,
                ..plain()
            },
            None,
        ),
        NodeView {
            content: ContentView::Image { path: LOGO@ },
            ..panel(
                Some(first),
                Style {
                    width: Val::Px(500),
                    height: Val::Px(125),
                    margin_top: Val::VMin(5),
                    ..plain()
                },
                Some(rgb(100, 100, 100)),
            )
        },
        NodeView {
            content: ContentView::AltText { text: "Bevy logo"@ },
            ..panel(Some(first + 1), Style { display: Display::Hidden, ..plain() }, None)
        },
    ]
}

/// The whole panel as it is added to a store of `first` nodes: a root that fills the
/// window, and under it the side bar, the bordered box, the squares and the logo.
pub open spec fn top_bar(first: nat) -> Seq<NodeView> {
    seq![
        panel(None, Style { justify_content: JustifyContent::SpaceBetween, ..filling() }, None),
    ] + side_bar(first + 1, first) + bordered_box(first + 35, first) + paint_order_squares(
        first + 37,
        first,
    ) + logo(first + 43, first)
}

/// The nodes of one panel.
pub const TOP_BAR_NODES: usize = 46;

/// `node` as it reads in a store that has `by` more nodes in front of it.
pub open spec fn shifted(node: NodeView, by: nat) -> NodeView {
    NodeView {
        parent: match node.parent {
            Some(p) => Some(p + by),
            None => None,
        },
        ..node
    }
}

/// Every node of `nodes`, which stand in a store from position `first` on, has its parent
/// among the nodes of `nodes` that come before it, or has none.
pub open spec fn self_contained(nodes: Seq<NodeView>, first: nat) -> bool {
    forall|i: int|
        0 <= i < nodes.len() ==> match (#[trigger] nodes[i]).parent {
            Some(p) => first <= p < first + i,
            None => true,
        }
}

/// The panel has [`TOP_BAR_NODES`] nodes, the first of them its only root, and refers to
/// no node outside itself. Wherever it is added it is the same panel: the one that is
/// added to an empty store, with the positions of the parents moved along.
pub proof fn lemma_top_bar_shape(first: nat)
    ensures
        top_bar(first).len() == TOP_BAR_NODES,
        self_contained(top_bar(first), first),
        forall|i: int|
            0 <= i < TOP_BAR_NODES ==> ((#[trigger] top_bar(first)[i]).parent.is_none() <==> i
                == 0),
        forall|i: int|
            0 <= i < TOP_BAR_NODES ==> #[trigger] top_bar(first)[i] == shifted(
                top_bar(0)[i],
                first,
            ),
{
    // The panel in five parts, and the list inside the second.
    let a = side_bar(first + 1, first);
    let b = bordered_box(first + 35, first);
    let c = paint_order_squares(first + 37, first);
    let d = logo(first + 43, first);
    let l = list_with_overflow(first + 3, first + 1);
    let a0 = side_bar(1, 0);
    let b0 = bordered_box(35, 0);
    let c0 = paint_order_squares(37, 0);
    let d0 = logo(43, 0);
    let l0 = list_with_overflow(3, 1);
    assert(l.len() == 32 && l0.len() == 32);
    assert(a.len() == 34 && a0.len() == 34);
    assert(b.len() == 2 && c.len() == 6 && d.len() == 3);
    assert(b0.len() == 2 && c0.len() == 6 && d0.len() == 3);
    assert forall|i: int| 0 <= i < 32 implies (#[trigger] l[i]).parent.is_some() && first + 1
        <= l[i].parent.unwrap() < first + 3 + i && l[i] == shifted(l0[i], first) by {
        if i >= 2 {
            assert(l[i] == label(first + 4, item_text((i - 2) as nat), 20));
            assert(l0[i] == label(4, item_text((i - 2) as nat), 20));
        }
    }
    assert forall|i: int| 0 <= i < 34 implies (#[trigger] a[i]).parent.is_some() && first
        <= a[i].parent.unwrap() < first + 1 + i && a[i] == shifted(a0[i], first) by {
        if i >= 2 {
            assert(a[i] == l[i - 2]);
            assert(a0[i] == l0[i - 2]);
        }
    }
    assert forall|i: int| 0 <= i < 2 implies (#[trigger] b[i]).parent.is_some() && first
        <= b[i].parent.unwrap() < first + 35 + i && b[i] == shifted(b0[i], first) by {}
    assert forall|i: int| 0 <= i < 6 implies (#[trigger] c[i]).parent.is_some() && first
        <= c[i].parent.unwrap() < first + 37 + i && c[i] == shifted(c0[i], first) by {}
    assert forall|i: int| 0 <= i < 3 implies (#[trigger] d[i]).parent.is_some() && first
        <= d[i].parent.unwrap() < first + 43 + i && d[i] == shifted(d0[i], first) by {}
    let t = top_bar(first);
    let t0 = top_bar(0);
    assert(t.len() == 46 && t0.len() == 46);
    assert forall|i: int| 0 <= i < 46 implies (match (#[trigger] t[i]).parent {
        Some(p) => first <= p < first + i,
        None => i == 0,
    }) && t[i].parent.is_none() == (i == 0) && t[i] == shifted(t0[i], first) by {
        if i == 0 {
        } else if i < 35 {
            assert(t[i] == a[i - 1] && t0[i] == a0[i - 1]);
        } else if i < 37 {
            assert(t[i] == b[i - 35] && t0[i] == b0[i - 35]);
        } else if i < 43 {
            assert(t[i] == c[i - 37] && t0[i] == c0[i - 37]);
        } else {
            assert(t[i] == d[i - 43] && t0[i] == d0[i - 43]);
        }
    }
}

/// Building the panel twice gives two panels that have nothing to do with each other. The
/// second leaves every node of the first as it was; each has its own root and finds all
/// its parents among its own nodes; and node for node the second is the first, moved along
/// by the length of one panel.
pub proof fn lemma_two_panels_are_independent(before: Seq<NodeView>)
    ensures
        ({
            let once = before + top_bar(before.len());
            let twice = once + top_bar(once.len());
            &&& twice.len() == before.len() + 2 * TOP_BAR_NODES
            &&& twice.subrange(0, once.len() as int) == once
            &&& twice.subrange(before.len() as int, once.len() as int) == top_bar(before.len())
            &&& twice.subrange(once.len() as int, twice.len() as int) == top_bar(once.len())
            &&& self_contained(top_bar(before.len()), before.len())
            &&& self_contained(top_bar(once.len()), once.len())
            &&& forall|i: int|
                0 <= i < TOP_BAR_NODES ==> #[trigger] top_bar(once.len())[i] == shifted(
                    top_bar(before.len())[i],
                    TOP_BAR_NODES as nat,
                )
        }),
{
    let first = before.len();
    let once = before + top_bar(first);
    let second = once.len();
    let twice = once + top_bar(second);
    lemma_top_bar_shape(first);
    lemma_top_bar_shape(second);
    assert(twice.subrange(0, once.len() as int) =~= once);
    assert(twice.subrange(first as int, once.len() as int) =~= top_bar(first));
    assert(twice.subrange(once.len() as int, twice.len() as int) =~= top_bar(second));
    assert forall|i: int| 0 <= i < TOP_BAR_NODES implies #[trigger] top_bar(second)[i] == shifted(
        top_bar(first)[i],
        TOP_BAR_NODES as nat,
    ) by {
        assert(top_bar(first)[i] == shifted(top_bar(0)[i], first));
        assert(top_bar(second)[i] == shifted(top_bar(0)[i], second));
    }
}

/// Every node but a root comes after its parent.
pub open spec fn parents_first(nodes: Seq<NodeView>) -> bool {
    forall|i: int|
        0 <= i < nodes.len() ==> match (#[trigger] nodes[i]).parent {
            Some(p) => p < i,
            None => true,
        }
}

/// The store of panel nodes.
#[derive(Debug)]
pub struct UiTree {
    nodes: Vec<Node>,
}

impl View for UiTree {
    type V = Seq<NodeView>;

    closed spec fn view(&self) -> Seq<NodeView> {
        self.nodes@.map_values(|n: Node| n@)
    }
}

impl UiTree {
    /// Every node but a root comes after its parent. Holds of every `UiTree` that exists.
    #[verifier::type_invariant]
    pub closed spec fn inv(self) -> bool {
        parents_first(self@)
    }

    /// A store without nodes.
    pub fn new() -> (ui: Self)
        ensures
            ui@ == Seq::<NodeView>::empty(),
    {
        let ui = UiTree { nodes: Vec::new() };
        assert(ui@ =~= Seq::<NodeView>::empty());
        ui
    }

    /// The nodes in the order in which they were added.
    pub fn nodes(&self) -> (nodes: &Vec<Node>)
        ensures
            nodes@.len() == self@.len(),
            forall|i: int| 0 <= i < nodes@.len() ==> (#[trigger] nodes@[i])@ == self@[i],
            parents_first(self@),
    {
        proof {
            use_type_invariant(self);
        }
        &self.nodes
    }

    /// The number of nodes.
    pub fn len(&self) -> (n: usize)
        ensures
            n == self@.len(),
    {
        self.nodes.len()
    }

    fn add(&mut self, node: Node) -> (at: usize)
        requires
            match node.parent {
                Some(p) => p < old(self)@.len(),
                None => true,
            },
        ensures
            at == old(self)@.len(),
            final(self)@ == old(self)@.push(node@),
    {
        proof {
            use_type_invariant(&*self);
        }
        let at = self.nodes.len();
        let mut nodes: Vec<Node> = Vec::new();
        std::mem::swap(&mut self.nodes, &mut nodes);
        assert(self@ =~= Seq::<NodeView>::empty());
        let ghost before = nodes@.map_values(|n: Node| n@);
        nodes.push(node);
        assert(nodes@.map_values(|n: Node| n@) =~= before.push(node@));
        self.nodes = nodes;
        at
    }
}

impl Style {
    /// The layout that a node has where nothing else is said.
    pub fn plain() -> (style: Style)
        ensures
            style == plain(),
    {
        Style {
            display: Display::Flex,
            position_type: PositionType::Relative,
            overflow: Overflow::Visible,
            flex_direction: FlexDirection::Row,
            justify_content: JustifyContent::Default,
            align_items: AlignItems::Default,
            align_self: AlignSelf::Auto,
            width: Val::Auto,
            height: Val::Auto,
            left: Val::Auto,
            bottom: Val::Auto,
            border: Val::Px(0),
            margin_top: Val::Px(0),
        }
    }

    /// The layout of a node that fills its parent.
    pub fn filling() -> (style: Style)
        ensures
            style == filling(),
    {
        Style { width: Val::Percent(100), height: Val::Percent(100), ..Style::plain() }
    }
}

impl Color {
    /// An opaque colour.
    pub fn rgb(red: u8, green: u8, blue: u8) -> (color: Color)
        ensures
            color == rgb(red, green, blue),
    {
        Color { red, green, blue, alpha: 100 }
    }
}

impl Node {
    /// A box under `parent` with the given layout and fill.
    pub fn panel(parent: Option<usize>, style: Style, background: Option<Color>) -> (node: Node)
        ensures
            node.parent == parent,
            node@ == panel(node@.parent, style, background),
    {
        Node { parent, style, background, border_color: None, content: Content::Panel }
    }

    /// A label under `parent` in the panel's font.
    pub fn label(parent: usize, text: String, font_size: u32) -> (node: Node)
        ensures
            node.parent == Some(parent),
            node@ == label(parent as nat, text@, font_size),
    {
        Node {
            parent: Some(parent),
            style: Style::plain(),
            background: None,
            border_color: None,
            content: Content::Label { text, font: String::from_str(FONT), font_size },
        }
    }

    fn overlay(parent: usize, offset: u32, background: Color) -> (node: Node)
        ensures
            node.parent == Some(parent),
            node@ == overlay(parent as nat, offset, background),
    {
        Node::panel(
            Some(parent),
            Style {
                position_type: PositionType::Absolute,
                left: Val::Px(offset),
                bottom: Val::Px(offset),
                ..Style::filling()
            },
            Some(background),
        )
    }
}

/// Adds the scrolling list under the node at `parent` and returns the position of its
/// viewport.
pub fn spawn_list_with_overflow(ui: &mut UiTree, parent: usize) -> (viewport: usize)
    requires
        parent < old(ui)@.len(),
    ensures
        viewport == old(ui)@.len(),
        final(ui)@ == old(ui)@ + list_with_overflow(viewport as nat, parent as nat),
{
    let ghost before = ui@;
    let viewport: usize = ui.add(
        Node::panel(
            Some(parent),
            Style {
                flex_direction: FlexDirection::Column,
                align_self: AlignSelf::Stretch,
                height: Val::Percent(50),
                overflow: Overflow::ClipY,
                ..Style::plain()
            },
            Some(Color::rgb(10, 10, 10)),
        ),
    );
    let moving: usize = ui.add(
        Node::panel(
            Some(viewport),
            Style {
                flex_direction: FlexDirection::Column,
                align_items: AlignItems::Center,
                ..Style::plain()
            },
            None,
        ),
    );
    let ghost listed = list_with_overflow(viewport as nat, parent as nat);
    assert(ui@ =~= before + listed.take(2));
    let mut i: u32 = 0;
    while i < LIST_ITEMS
        invariant
            i <= LIST_ITEMS,
            moving == before.len() + 1,
            viewport == before.len(),
            listed == list_with_overflow(viewport as nat, parent as nat),
            ui@ == before + listed.take(2 + i),
        decreases LIST_ITEMS - i,
    {
        ui.add(Node::label(moving, item_label(i), 20));
        assert(ui@ =~= before + listed.take(2 + i + 1));
        i += 1;
    }
    assert(listed.take(2 + LIST_ITEMS as int) =~= listed);
    viewport
}

fn spawn_side_bar(ui: &mut UiTree, parent: usize)
    requires
        parent < old(ui)@.len(),
    ensures
        final(ui)@ == old(ui)@ + side_bar(old(ui)@.len(), parent as nat),
{
    let ghost before = ui@;
    let bar: usize = ui.add(
        Node::panel(
            Some(parent),
            Style {
                flex_direction: FlexDirection::Column,
                justify_content: JustifyContent::Center,
                align_items: AlignItems::Center,
                width: Val::Px(200),
                ..Style::plain()
            },
            Some(Color::rgb(15, 15, 15)),
        ),
    );
    ui.add(Node::label(bar, String::from_str("Scrolling list"), 25));
    spawn_list_with_overflow(ui, bar);
    assert(ui@ =~= before + side_bar(before.len(), parent as nat));
}

fn spawn_bordered_box(ui: &mut UiTree, parent: usize)
    requires
        parent < old(ui)@.len(),
    ensures
        final(ui)@ == old(ui)@ + bordered_box(old(ui)@.len(), parent as nat),
{
    let ghost before = ui@;
    let mut outer = Node::panel(
        Some(parent),
        Style {
            width: Val::Px(200),
            height: Val::Px(200),
            position_type: PositionType::Absolute,
            left: Val::Px(210),
            bottom: Val::Px(10),
            border: Val::Px(20),
            ..Style::plain()
        },
        Some(Color::rgb(40, 40, 100)),
    );
    outer.border_color = Some(Color::rgb(0, 100, 0));
    let at: usize = ui.add(outer);
    ui.add(Node::panel(Some(at), Style::filling(), Some(Color::rgb(80, 80, 100))));
    assert(ui@ =~= before + bordered_box(before.len(), parent as nat));
}

fn spawn_paint_order_squares(ui: &mut UiTree, parent: usize)
    requires
        parent < old(ui)@.len(),
    ensures
        final(ui)@ == old(ui)@ + paint_order_squares(old(ui)@.len(), parent as nat),
{
    let ghost before = ui@;
    let frame: usize = ui.add(
        Node::panel(
            Some(parent),
            Style {
                position_type: PositionType::Absolute,
                align_items: AlignItems::Center,
                justify_content: JustifyContent::Center,
                ..Style::filling()
            },
            None,
        ),
    );
    let red: usize = ui.add(
        Node::panel(
            Some(frame),
            Style { width: Val::Px(100), height: Val::Px(100), ..Style::plain() },
            Some(Color::rgb(100, 0, 0)),
        ),
    );
    ui.add(Node::overlay(red, 20, Color::rgb(100, 30, 30)));
    ui.add(Node::overlay(red, 40, Color::rgb(100, 50, 50)));
    ui.add(Node::overlay(red, 60, Color::rgb(100, 70, 70)));
    ui.add(Node::overlay(red, 80, Color { red: 100, green: 90, blue: 90, alpha: 40 }));
    assert(ui@ =~= before + paint_order_squares(before.len(), parent as nat));
}

fn spawn_logo(ui: &mut UiTree, parent: usize)
    requires
        parent < old(ui)@.len(),
    ensures
        final(ui)@ == old(ui)@ + logo(old(ui)@.len(), parent as nat),
{
    let ghost before = ui@;
    let frame: usize = ui.add(
        Node::panel(
            Some(parent),
            Style {
                width: Val::Percent(100),
                position_type: PositionType::Absolute,
                justify_content: JustifyContent::Center,
                align_items: AlignItems::FlexStart,
                ..Style::plain()
            },
            None,
        ),
    );
    let mut image = Node::panel(
        Some(frame),
        Style {
            width: Val::Px(500),
            height: Val::Px(125),
            margin_top: Val::VMin(5),
            ..Style::plain()
        },
        Some(Color::rgb(100, 100, 100)),
    );
    image.content = Content::Image { path: String::from_str(LOGO) };
    let at: usize = ui.add(image);
    let mut alt = Node::panel(Some(at), Style { display: Display::Hidden, ..Style::plain() }, None);
    alt.content = Content::AltText { text: String::from_str("Bevy logo") };
    ui.add(alt);
    assert(ui@ =~= before + logo(before.len(), parent as nat));
}

/// Adds the whole panel to the store and returns the position of its root. The nodes that
/// were there stay as they are; the panel's nodes follow them, each naming its parent
/// among the nodes of this same panel.
pub fn spawn_top_bar(ui: &mut UiTree) -> (root: usize)
    ensures
        root == old(ui)@.len(),
        final(ui)@ == old(ui)@ + top_bar(root as nat),
{
    let ghost before = ui@;
    let root: usize = ui.add(
        Node::panel(
            None,
            Style { justify_content: JustifyContent::SpaceBetween, ..Style::filling() },
            None,
        ),
    );
    spawn_side_bar(ui, root);
    spawn_bordered_box(ui, root);
    spawn_paint_order_squares(ui, root);
    spawn_logo(ui, root);
    assert(ui@ =~= before + top_bar(root as nat));
    root
}

} // verus!

use vstd::prelude::*;
use vstd::string::*;
use crate::model::pane::{pane_node, Pane, PaneView};
use crate::yaml::{entry_nodes, list_value, record_value, text_value, value_node, value_nodes, Node};

verus! {

/// How the panes of a window are arranged.
#[derive(Debug, Clone, Copy, PartialEq, Eq, Structural)]
pub enum WindowLayout {
    Tiled,
    EvenHorizontal,
    EvenVertical,
    MainHorizontal,
    MainVertical,
}

/// The name under which tmux knows a layout.
pub open spec fn layout_text(layout: WindowLayout) -> Seq<char> {
    match layout {
        WindowLayout::Tiled => "tiled"@,
        WindowLayout::EvenHorizontal => "even-horizontal"@,
        WindowLayout::EvenVertical => "even-vertical"@,
        WindowLayout::MainHorizontal => "main-horizontal"@,
        WindowLayout::MainVertical => "main-vertical"@,
    }
}

/// The layouts in the order in which they are offered.
pub open spec fn all_layouts() -> Seq<WindowLayout> {
    seq![
        WindowLayout::Tiled,
        WindowLayout::EvenHorizontal,
        WindowLayout::EvenVertical,
        WindowLayout::MainHorizontal,
        WindowLayout::MainVertical,
    ]
}

impl WindowLayout {
    /// Every layout, once, in the order in which they are offered.
    pub fn all() -> (r: &'static [WindowLayout])
        ensures
            r@ == all_layouts(),
    {
        let r: &'static [WindowLayout] = &[
            WindowLayout::Tiled,
            WindowLayout::EvenHorizontal,
            WindowLayout::EvenVertical,
            WindowLayout::MainHorizontal,
            WindowLayout::MainVertical,
        ];
        proof {
            assert(r@ =~= all_layouts());
        }
        r
    }

    /// The name under which tmux knows this layout.
    pub fn as_str(&self) -> (r: &'static str)
        ensures
            r@ == layout_text(*self),
    {
        match self {
            WindowLayout::Tiled => "tiled",
            WindowLayout::EvenHorizontal => "even-horizontal",
            WindowLayout::EvenVertical => "even-vertical",
            WindowLayout::MainHorizontal => "main-horizontal",
            WindowLayout::MainVertical => "main-vertical",
        }
    }

    /// The name of this layout as an owned string.
    pub fn label(&self) -> (r: String)
        ensures
            r@ == layout_text(*self),
    {
        String::from_str(self.as_str())
    }
}

/// A window of a session: an optional name, an optional layout, and panes.
#[derive(Debug, Clone, PartialEq, Eq)]
pub struct Window {
    pub window_name: Option<String>,
    pub layout: Option<WindowLayout>,
    pub panes: Vec<Pane>,
}

/// A window as a value.
pub struct WindowView {
    pub window_name: Option<Seq<char>>,
    pub layout: Option<WindowLayout>,
    pub panes: Seq<PaneView>,
}

/// The panes of a list, each as a value.
pub open spec fn pane_views(panes: Seq<Pane>) -> Seq<PaneView> {
    panes.map_values(|p: Pane| p@)
}

impl View for Window {
    type V = WindowView;

    open spec fn view(&self) -> WindowView {
        WindowView {
            window_name: match self.window_name {
                Some(name) => Some(name@),
                None => None,
            },
            layout: self.layout,
            panes: pane_views(self.panes@),
        }
    }
}

/// The entry for a window's name: none where it has no name.
pub open spec fn name_entries(name: Option<Seq<char>>) -> Seq<(Seq<char>, Node)> {
    match name {
        Some(n) => seq![("window_name"@, Node::Text(n))],
        None => Seq::empty(),
    }
}

/// The entry for a window's layout: none where it has no layout.
pub open spec fn layout_entries(layout: Option<WindowLayout>) -> Seq<(Seq<char>, Node)> {
    match layout {
        Some(l) => seq![("layout"@, Node::Text(layout_text(l)))],
        None => Seq::empty(),
    }
}

/// The documents of a list of panes.
pub open spec fn pane_nodes(panes: Seq<PaneView>) -> Seq<Node> {
    panes.map_values(|p: PaneView| pane_node(p))
}

/// The entries of a window's record: name and layout where it has them,
/// then its panes.
pub open spec fn window_entries(w: WindowView) -> Seq<(Seq<char>, Node)> {
    name_entries(w.window_name) + layout_entries(w.layout) + seq![
        ("panes"@, Node::List(pane_nodes(w.panes))),
    ]
}

/// The document of a window.
pub open spec fn window_node(w: WindowView) -> Node {
    Node::Record(window_entries(w))
}

/// The three keys of a window's record differ from each other.
pub proof fn lemma_window_keys()
    ensures
        "window_name"@ != "layout"@,
        "window_name"@ != "panes"@,
        "layout"@ != "panes"@,
{
    reveal_strlit("window_name");
    reveal_strlit("layout");
    reveal_strlit("panes");
    assert("window_name"@.len() == 11);
    assert("layout"@.len() == 6);
    assert("panes"@.len() == 5);
}

impl Window {
    /// A window with the given name, layout and panes.
    pub fn new(name: Option<String>, layout: Option<WindowLayout>, panes: Vec<Pane>) -> (r: Window)
        ensures
            r.window_name == name,
            r.layout == layout,
            r.panes == panes,
    {
        Window { window_name: name, layout, panes }
    }

    /// A window without name or layout that holds one pane, which runs
    /// nothing.
    pub fn simple() -> (r: Window)
        ensures
            r@.window_name is None,
            r@.layout is None,
            r@.panes.len() == 1,
            r@.panes[0].shell_command == Seq::<Seq<char>>::empty(),
    {
        let mut panes: Vec<Pane> = Vec::new();
        panes.push(Pane::empty());
        Window { window_name: None, layout: None, panes }
    }

    /// The YAML value of this window.
    pub(crate) fn to_value(&self) -> (v: serde_yaml::Value)
        ensures
            value_node(v) == window_node(self@),
    {
        let mut entries: Vec<(String, serde_yaml::Value)> = Vec::new();
        match &self.window_name {
            Some(name) => {
                entries.push(("window_name".to_string(), text_value(name.as_str())));
            },
            None => {},
        }
        match self.layout {
            Some(layout) => {
                entries.push(("layout".to_string(), text_value(layout.as_str())));
            },
            None => {},
        }
        let mut items: Vec<serde_yaml::Value> = Vec::new();
        let mut i: usize = 0;
        while i < self.panes.len()
            invariant
                i <= self.panes.len(),
                items@.len() == i,
                forall|k: int|
                    0 <= k < i ==> value_node(#[trigger] items@[k]) == pane_node(self.panes@[k]@),
            decreases self.panes.len() - i,
        {
            items.push(self.panes[i].to_value());
            i = i + 1;
        }
        proof {
            assert(value_nodes(items@) =~= pane_nodes(self@.panes));
        }
        entries.push(("panes".to_string(), list_value(items)));
        proof {
            lemma_window_keys();
            assert(entry_nodes(entries@) =~= window_entries(self@));
        }
        record_value(entries)
    }
}

} // verus!

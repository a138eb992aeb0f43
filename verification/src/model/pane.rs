use vstd::prelude::*;
use crate::yaml::{list_value, record_value, text_value, value_node, value_nodes, entry_nodes, Node};

verus! {

/// A pane of a window, with the commands that are run in it at startup.
#[derive(Debug, Clone, PartialEq, Eq)]
pub struct Pane {
    pub shell_command: Vec<String>,
}

/// A pane as a value: its commands in order.
pub struct PaneView {
    pub shell_command: Seq<Seq<char>>,
}

impl View for Pane {
    type V = PaneView;

    open spec fn view(&self) -> PaneView {
        PaneView { shell_command: self.shell_command.deep_view() }
    }
}

/// The commands of a pane as a list of texts.
pub open spec fn command_nodes(commands: Seq<Seq<char>>) -> Seq<Node> {
    commands.map_values(|c: Seq<char>| Node::Text(c))
}

/// The entries of a pane's record: its commands under `shell_command`, and
/// nothing at all where it has none.
pub open spec fn pane_entries(p: PaneView) -> Seq<(Seq<char>, Node)> {
    if p.shell_command.len() == 0 {
        Seq::empty()
    } else {
        seq![("shell_command"@, Node::List(command_nodes(p.shell_command)))]
    }
}

/// The document of a pane.
pub open spec fn pane_node(p: PaneView) -> Node {
    Node::Record(pane_entries(p))
}

impl Pane {
    /// A pane that runs the given commands.
    pub fn new(commands: Vec<String>) -> (r: Pane)
        ensures
            r.shell_command == commands,
            r@.shell_command == commands.deep_view(),
    {
        Pane { shell_command: commands }
    }

    /// A pane that runs nothing.
    pub fn empty() -> (r: Pane)
        ensures
            r@.shell_command == Seq::<Seq<char>>::empty(),
    {
        let r = Pane { shell_command: Vec::new() };
        proof {
            assert(r@.shell_command =~= Seq::<Seq<char>>::empty());
        }
        r
    }

    /// The YAML value of this pane.
    pub(crate) fn to_value(&self) -> (v: serde_yaml::Value)
        ensures
            value_node(v) == pane_node(self@),
    {
        let mut entries: Vec<(String, serde_yaml::Value)> = Vec::new();
        if self.shell_command.len() > 0 {
            let mut items: Vec<serde_yaml::Value> = Vec::new();
            let mut i: usize = 0;
            while i < self.shell_command.len()
                invariant
                    i <= self.shell_command.len(),
                    items@.len() == i,
                    forall|k: int|
                        0 <= k < i ==> value_node(#[trigger] items@[k]) == Node::Text(
                            self.shell_command@[k]@,
                        ),
                decreases self.shell_command.len() - i,
            {
                items.push(text_value(self.shell_command[i].as_str()));
                i = i + 1;
            }
            proof {
                assert(value_nodes(items@) =~= command_nodes(self@.shell_command));
            }
            entries.push(("shell_command".to_string(), list_value(items)));
        }
        proof {
            assert(entry_nodes(entries@) =~= pane_entries(self@));
        }
        record_value(entries)
    }
}

} // verus!

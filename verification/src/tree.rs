//! The window manager's tree of containers and windows, modelled as plain
//! values, and the flat window records the dock derives from it.
//!
//! A `WindowNode` holds exactly the fields of the compositor's tree reply
//! that the extractor reads; the GUI layer fills one in from the IPC reply
//! before handing it to the library.

use vstd::prelude::*;

verus! {

/// The kind of a node in the compositor's tree.
#[derive(Clone, Copy, Debug, PartialEq, Eq, Structural)]
pub enum NodeKind {
    Root,
    Output,
    Workspace,
    Container,
    FloatingContainer,
    Dockarea,
}

/// Window-manager-reported properties of an X11 window. Only the class field
/// takes part in extraction (as the fallback application identifier).
#[derive(Debug)]
pub struct WindowProps {
    pub class: Option<String>,
}

/// One node of the compositor's window tree: ordinary children in `nodes`,
/// floating children in `floating_nodes`.
#[derive(Debug)]
pub struct WindowNode {
    pub id: i64,
    pub node_type: NodeKind,
    pub name: Option<String>,
    pub app_id: Option<String>,
    pub window_properties: Option<WindowProps>,
    pub focused: bool,
    pub nodes: Vec<WindowNode>,
    pub floating_nodes: Vec<WindowNode>,
}

/// One open application window, produced fresh on every extraction pass.
#[derive(Debug)]
pub struct WindowRecord {
    pub id: i64,
    pub title: String,
    pub app_id: String,
    pub focused: bool,
}

/// Mathematical image of a `WindowRecord`: the identifier as an integer and
/// the texts as character sequences.
pub struct RecordView {
    pub id: int,
    pub title: Seq<char>,
    pub app_id: Seq<char>,
    pub focused: bool,
}

impl View for WindowRecord {
    type V = RecordView;

    open spec fn view(&self) -> RecordView {
        RecordView {
            id: self.id as int,
            title: self.title@,
            app_id: self.app_id@,
            focused: self.focused,
        }
    }
}

impl WindowRecord {
    /// An exact copy; `clone` is written out so the copy provably carries the
    /// same fields.
    pub fn duplicate(&self) -> (r: WindowRecord)
        ensures
            r@ == self@,
    {
        WindowRecord {
            id: self.id,
            title: self.title.clone(),
            app_id: self.app_id.clone(),
            focused: self.focused,
        }
    }
}

} // verus!

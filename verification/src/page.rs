//! Typed values exchanged with the page/script control channel.
//!
//! The core never talks to the page directly: a handler that needs the page
//! decides *what* to ask and hands the command to the transport, which
//! performs the round trip and, where an answer is expected, hands the
//! answer back to a completion function of the library. These are the
//! command and request values of that exchange.

use vstd::prelude::*;

verus! {

/// Identifies one page (pipeline) under debugging.
#[derive(Clone, Copy, Debug, PartialEq, Eq, Structural)]
pub struct PipelineId {
    pub namespace_id: u32,
    pub index: u32,
}

/// The color scheme a client may ask the page to simulate.
#[derive(Clone, Copy, Debug, PartialEq, Eq, Structural)]
pub enum ColorScheme {
    Light,
    Dark,
}

/// One requested change to an attribute of a DOM node.
#[derive(Debug)]
pub struct AttrModification {
    pub attribute_name: String,
    /// The new value, or `None` to remove the attribute.
    pub new_value: Option<String>,
}

impl View for AttrModification {
    type V = (Seq<char>, Option<Seq<char>>);

    open spec fn view(&self) -> (Seq<char>, Option<Seq<char>>) {
        (
            self.attribute_name@,
            match self.new_value {
                Some(v) => Some(v@),
                None => None,
            },
        )
    }
}

impl DeepView for AttrModification {
    type V = (Seq<char>, Option<Seq<char>>);

    open spec fn deep_view(&self) -> (Seq<char>, Option<Seq<char>>) {
        self.view()
    }
}

/// A command to the page that expects no answer.
#[derive(Debug)]
pub enum PageCommand {
    /// Reload the page.
    Reload(PipelineId),
    /// Highlight the node with the given script identity, or clear the
    /// highlight.
    HighlightDomNode(PipelineId, Option<String>),
    /// Tell the page whether any debugger still listens for lifecycle
    /// notifications.
    WantsLiveNotifications(PipelineId, bool),
    /// Apply attribute modifications to the node with the given script
    /// identity.
    ModifyAttribute(PipelineId, String, Vec<AttrModification>),
    /// Simulate a color scheme.
    SimulateColorScheme(PipelineId, ColorScheme),
}

/// A request to the page whose answer a completion function of the library
/// consumes.
#[derive(Debug)]
pub enum PageRequest {
    /// The children of the node with the given script identity, wanted by
    /// the named walker to answer a `children` message.
    WalkerChildren { pipeline: PipelineId, walker: String, node_script_id: String },
    /// The document element, wanted by the named walker to answer a
    /// `documentElement` message.
    WalkerDocumentElement { pipeline: PipelineId, walker: String },
    /// The document element, wanted by the named node actor to answer a
    /// `getUniqueSelector` message.
    NodeUniqueSelector { pipeline: PipelineId, walker: String, node: String },
    /// The XPath of the node with the given script identity, wanted by the
    /// named node actor to answer a `getXPath` message.
    NodeXPath { pipeline: PipelineId, node: String, target_script_id: String },
    /// The children of the node with the given script identity, wanted by a
    /// walker's selector search for the given selector.
    SelectorSearchStep { pipeline: PipelineId, walker: String, node_script_id: String, selector: String },
}

} // verus!

//! The interactive command editor: one session owning the graph, a table
//! of named pins, and a current-pin selector, driven line by line through
//! a tokenizer, a parser, and an executor.
//!
//! Nothing here prints: every piece of user-visible feedback is returned
//! as a [`Note`] value, and the embedding program renders the text.

pub mod executer;
pub mod lexer;
pub mod parser;

use vstd::prelude::*;
use self::executer::StepRes;
use self::executer::commands_view;
use self::executer::run;
use self::lexer::TokenV;
use self::lexer::tokens_of;
use self::parser::listing_notes;
use self::parser::parse_view;
use crate::dict::Dict;
use crate::graph::Graph;
use crate::node::NodeView;
use crate::pin::{Pin, PinView};
use crate::strutil::dec_str;

verus! {

/// One line of user-visible feedback, as a value.
pub enum Note {
    /// Edge creation failed: one or both of these nodes are missing.
    EdgeNodesMissing(String, String),
    /// The named node was removed.
    NodeRemoved(String),
    /// No node of this name exists.
    NodeNotFound(String),
    /// The named edge was removed from the named node.
    EdgeRemoved(String, String),
    /// The named node has no edge of this name.
    EdgeNotFound(String, String),
    /// The named pin was removed.
    PinRemoved(String),
    /// No pin of this name exists.
    PinNotFound(String),
    /// No current pin has been selected.
    NoCurrentPin,
    /// The selected pin no longer exists in the pin table.
    CurrentPinMissing,
    /// The current node of the selected pin, or none.
    CurrentNode(Option<String>),
    /// The (edge name, neighbour name) pairs of the pin's current node.
    Neighbours(Vec<(String, String)>),
    /// The pin has no current node set.
    NoCurrentNode,
    /// The pin's current node is gone from the graph.
    CurrentNodeMissing(String),
    /// The pin's current node has no edge of this name: (edge, node).
    PathMissing(String, String),
    /// One node listing line.
    NodeLine(String),
    /// One pin listing line: the pin's name and its current node.
    PinLine(String, Option<String>),
    /// The command keyword was not recognised.
    UnknownCommand(String),
    /// An address token stood where a command keyword was expected.
    AddressCommand(String),
    /// An address token named a pin without a resolvable current node;
    /// the pin name itself was substituted.
    PinUnresolved(String),
    /// A required argument of this command was missing.
    MissingArgument(String),
}

/// What specifications see of a note.
pub enum NoteV {
    EdgeNodesMissing(Seq<char>, Seq<char>),
    NodeRemoved(Seq<char>),
    NodeNotFound(Seq<char>),
    EdgeRemoved(Seq<char>, Seq<char>),
    EdgeNotFound(Seq<char>, Seq<char>),
    PinRemoved(Seq<char>),
    PinNotFound(Seq<char>),
    NoCurrentPin,
    CurrentPinMissing,
    CurrentNode(Option<Seq<char>>),
    /// The listed neighbourhood, as the edge map it came from.
    Neighbours(Map<Seq<char>, Seq<char>>),
    NoCurrentNode,
    CurrentNodeMissing(Seq<char>),
    PathMissing(Seq<char>, Seq<char>),
    NodeLine(Seq<char>),
    PinLine(Seq<char>, Option<Seq<char>>),
    UnknownCommand(Seq<char>),
    AddressCommand(Seq<char>),
    PinUnresolved(Seq<char>),
    MissingArgument(Seq<char>),
}

/// The view of an optional name.
pub open spec fn opt_view(o: Option<String>) -> Option<Seq<char>> {
    match o {
        Option::None => Option::None,
        Option::Some(s) => Option::Some(s@),
    }
}

impl View for Note {
    type V = NoteV;

    open spec fn view(&self) -> NoteV {
        match self {
            Note::EdgeNodesMissing(a, b) => NoteV::EdgeNodesMissing(a@, b@),
            Note::NodeRemoved(a) => NoteV::NodeRemoved(a@),
            Note::NodeNotFound(a) => NoteV::NodeNotFound(a@),
            Note::EdgeRemoved(a, b) => NoteV::EdgeRemoved(a@, b@),
            Note::EdgeNotFound(a, b) => NoteV::EdgeNotFound(a@, b@),
            Note::PinRemoved(a) => NoteV::PinRemoved(a@),
            Note::PinNotFound(a) => NoteV::PinNotFound(a@),
            Note::NoCurrentPin => NoteV::NoCurrentPin,
            Note::CurrentPinMissing => NoteV::CurrentPinMissing,
            Note::CurrentNode(o) => NoteV::CurrentNode(opt_view(*o)),
            Note::Neighbours(v) => NoteV::Neighbours(crate::dict::pairs_map(v@)),
            Note::NoCurrentNode => NoteV::NoCurrentNode,
            Note::CurrentNodeMissing(a) => NoteV::CurrentNodeMissing(a@),
            Note::PathMissing(a, b) => NoteV::PathMissing(a@, b@),
            Note::NodeLine(a) => NoteV::NodeLine(a@),
            Note::PinLine(a, o) => NoteV::PinLine(a@, opt_view(*o)),
            Note::UnknownCommand(a) => NoteV::UnknownCommand(a@),
            Note::AddressCommand(a) => NoteV::AddressCommand(a@),
            Note::PinUnresolved(a) => NoteV::PinUnresolved(a@),
            Note::MissingArgument(a) => NoteV::MissingArgument(a@),
        }
    }
}

/// The views of a sequence of notes.
pub open spec fn notes_view(s: Seq<Note>) -> Seq<NoteV> {
    s.map_values(|n: Note| n@)
}

/// Why no pin could be selected.
#[derive(Debug, PartialEq, Eq)]
pub enum PinSelectorError {
    /// No current pin has been selected yet.
    NoCurrentPin,
    /// The selected pin has since been removed from the table.
    CurrentPinMissing,
}

/// What specifications see of an editor session.
#[verifier::ext_equal]
pub struct SessionView {
    pub graph: Map<Seq<char>, NodeView>,
    pub pins: Map<Seq<char>, PinView>,
    pub current_pin: Option<Seq<char>>,
    pub placeholder: nat,
}

/// What one submitted line leaves behind: the session after it and
/// whether the session ends, with the executor's feedback.
pub open spec fn line_outcome(s: SessionView, tvs: Seq<TokenV>) -> StepRes {
    let pv = parse_view(s.pins, s.placeholder, tvs);
    let mid = SessionView { placeholder: s.placeholder + pv.bump, ..s };
    run(mid, seq![pv.cmd])
}

/// Every note one submitted line produces, in order: the parser's
/// diagnostics, the listing lines, then the executor's feedback.
pub open spec fn line_notes(ed: CommandLineEditor, tvs: Seq<TokenV>) -> Seq<NoteV> {
    parse_view(ed@.pins, ed@.placeholder, tvs).notes + listing_notes(ed, tvs) + line_outcome(
        ed@,
        tvs,
    ).notes
}

/// One interactive session: the graph, the pin table, the current-pin
/// selector, and a counter for auto-generated names.
pub struct CommandLineEditor {
    pub graph: Graph,
    pub pins: Dict<Pin>,
    pub current_pin: Option<String>,
    pub placeholder: usize,
}

impl View for CommandLineEditor {
    type V = SessionView;

    open spec fn view(&self) -> SessionView {
        SessionView {
            graph: self.graph@,
            pins: self.pins@,
            current_pin: opt_view(self.current_pin),
            placeholder: self.placeholder as nat,
        }
    }
}

impl CommandLineEditor {
    /// The graph and the pin table are well-formed.
    pub open spec fn wf(&self) -> bool {
        &&& self.graph.wf()
        &&& self.pins.wf()
    }

    /// A fresh session: empty graph, no pins, nothing selected.
    pub fn new() -> (ed: CommandLineEditor)
        ensures
            ed.wf(),
            ed@.graph == Map::<Seq<char>, NodeView>::empty(),
            ed@.pins == Map::<Seq<char>, PinView>::empty(),
            ed@.current_pin is None,
            ed@.placeholder == 0,
    {
        CommandLineEditor {
            graph: Graph::new(),
            pins: Dict::new(),
            current_pin: Option::None,
            placeholder: 0,
        }
    }

    /// Stores `visitor` in the pin table under `name`, replacing any pin
    /// of that name.
    pub fn pin(&mut self, name: String, visitor: Pin)
        requires
            old(self).wf(),
        ensures
            final(self).wf(),
            final(self)@ == (SessionView {
                pins: old(self)@.pins.insert(name@, visitor@),
                ..old(self)@
            }),
    {
        self.pins.insert(name, visitor);
    }

    /// The next value of the auto-naming counter, rendered in decimal.
    pub fn next_free(&mut self) -> (r: String)
        requires
            old(self).placeholder < usize::MAX,
        ensures
            final(self)@ == (SessionView {
                placeholder: old(self)@.placeholder + 1,
                ..old(self)@
            }),
            final(self).wf() == old(self).wf(),
            r@ == dec_str(old(self)@.placeholder + 1),
    {
        self.placeholder = self.placeholder + 1;
        crate::strutil::usize_to_string(self.placeholder)
    }

    /// Selects the named pin as the current one; reports failure and
    /// changes nothing when no pin of that name exists.
    pub fn go_to_pin(&mut self, name: String) -> (r: bool)
        requires
            old(self).wf(),
        ensures
            final(self).wf(),
            r == old(self)@.pins.contains_key(name@),
            r ==> final(self)@ == (SessionView { current_pin: Some(name@), ..old(self)@ }),
            !r ==> final(self)@ == old(self)@,
    {
        if self.pins.contains(name.as_str()) {
            self.current_pin = Option::Some(name);
            true
        } else {
            false
        }
    }

    /// Submits one input line: tokenizes, parses, executes. Returns
    /// whether the session should end, and the feedback produced, as
    /// [`line_outcome`] and [`line_notes`] describe.
    pub fn submit_line(&mut self, line: String) -> (r: (bool, Vec<Note>))
        requires
            old(self).wf(),
            old(self).placeholder <= usize::MAX - 2,
        ensures
            final(self).wf(),
            final(self)@ == line_outcome(old(self)@, tokens_of(line@)).s,
            r.0 == line_outcome(old(self)@, tokens_of(line@)).exit,
            notes_view(r.1@) == line_notes(*old(self), tokens_of(line@)),
    {
        let ghost tvs = tokens_of(line@);
        let ghost pv = parse_view(old(self)@.pins, old(self)@.placeholder, tvs);
        let mut tokens = self.tokenize_command(line);
        let (cmds, mut notes) = self.parse_command(&mut tokens);
        proof {
            assert(commands_view(cmds@) =~= seq![pv.cmd]);
        }
        let (ex, mut enotes) = self.execute_command(cmds);
        notes.append(&mut enotes);
        proof {
            assert(notes_view(notes@) =~= line_notes(*old(self), tvs));
        }
        (ex, notes)
    }

    /// A copy of the currently selected pin, or the reason none could be
    /// produced: nothing selected, or the selected pin since removed.
    pub fn current_pin(&self) -> (r: Result<Pin, PinSelectorError>)
        requires
            self.wf(),
        ensures
            self@.current_pin is None <==> r == Err::<Pin, PinSelectorError>(
                PinSelectorError::NoCurrentPin,
            ),
            ({
                let sel = self@.current_pin;
                &&& (sel is Some && !self@.pins.contains_key(sel.unwrap())) <==> r == Err::<
                    Pin,
                    PinSelectorError,
                >(PinSelectorError::CurrentPinMissing)
                &&& (sel is Some && self@.pins.contains_key(sel.unwrap())) ==> (r matches Ok(p)
                    && p == self.pins.spec_at(sel.unwrap()) && p@ == self@.pins[sel.unwrap()])
            }),
    {
        match &self.current_pin {
            Option::None => Err(PinSelectorError::NoCurrentPin),
            Option::Some(name) => match self.pins.get(name.as_str()) {
                Option::None => Err(PinSelectorError::CurrentPinMissing),
                Option::Some(p) => Ok(p.clone()),
            },
        }
    }
}

} // verus!

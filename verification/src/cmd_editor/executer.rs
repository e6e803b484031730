//! The executor: applies a structured command to the session, producing
//! the notes the user sees and the signal that ends the session. Its
//! meaning is the specification-level interpreter [`step`] / [`run`],
//! which the executable code is proved to follow.

use vstd::prelude::*;
use super::{CommandLineEditor, Note, NoteV, PinSelectorError, SessionView, notes_view};
use crate::dict::lemma_pairs_map_of_entries;
use crate::graph::{add_edge_spec, add_node_spec, remove_edge_spec, remove_node_spec};
use crate::pin::{MoveOutcome, NeighboursOutcome, Pin, PinView};

verus! {

/// One structured command, as the parser produces it.
pub enum Command {
    Exit,
    CreateNode(String),
    CreateEdge(String, String, String),
    CreatePin(String, Pin),
    RemoveNode(String),
    RemoveEdge(String, String),
    RemovePin(String),
    Switch(String),
    Move(String, String),
    Current,
    ListNeighbours,
    Nop,
}

/// What specifications see of a command.
pub enum CommandV {
    Exit,
    CreateNode(Seq<char>),
    CreateEdge(Seq<char>, Seq<char>, Seq<char>),
    CreatePin(Seq<char>, PinView),
    RemoveNode(Seq<char>),
    RemoveEdge(Seq<char>, Seq<char>),
    RemovePin(Seq<char>),
    Switch(Seq<char>),
    Move(Seq<char>, Seq<char>),
    Current,
    ListNeighbours,
    Nop,
}

impl View for Command {
    type V = CommandV;

    open spec fn view(&self) -> CommandV {
        match self {
            Command::Exit => CommandV::Exit,
            Command::CreateNode(a) => CommandV::CreateNode(a@),
            Command::CreateEdge(a, b, c) => CommandV::CreateEdge(a@, b@, c@),
            Command::CreatePin(a, p) => CommandV::CreatePin(a@, p@),
            Command::RemoveNode(a) => CommandV::RemoveNode(a@),
            Command::RemoveEdge(a, b) => CommandV::RemoveEdge(a@, b@),
            Command::RemovePin(a) => CommandV::RemovePin(a@),
            Command::Switch(a) => CommandV::Switch(a@),
            Command::Move(a, b) => CommandV::Move(a@, b@),
            Command::Current => CommandV::Current,
            Command::ListNeighbours => CommandV::ListNeighbours,
            Command::Nop => CommandV::Nop,
        }
    }
}

/// The views of a command sequence.
pub open spec fn commands_view(s: Seq<Command>) -> Seq<CommandV> {
    s.map_values(|c: Command| c@)
}

/// What one command leaves behind: the session after it, whether the
/// session ends, and the feedback produced.
pub struct StepRes {
    pub s: SessionView,
    pub exit: bool,
    pub notes: Seq<NoteV>,
}

/// The feedback of the `current` command: the selected pin's current
/// node, or why none could be shown.
pub open spec fn current_note(s: SessionView) -> NoteV {
    match s.current_pin {
        Option::None => NoteV::NoCurrentPin,
        Option::Some(pn) => if !s.pins.contains_key(pn) {
            NoteV::CurrentPinMissing
        } else {
            NoteV::CurrentNode(s.pins[pn].current)
        },
    }
}

/// The feedback of the `listneighbours` command: the edge map of the
/// selected pin's current node, or why none could be listed.
pub open spec fn neighbours_note(s: SessionView) -> NoteV {
    match s.current_pin {
        Option::None => NoteV::NoCurrentPin,
        Option::Some(pn) => if !s.pins.contains_key(pn) {
            NoteV::CurrentPinMissing
        } else {
            match s.pins[pn].current {
                Option::None => NoteV::NoCurrentNode,
                Option::Some(c) => if !s.graph.contains_key(c) {
                    NoteV::CurrentNodeMissing(c)
                } else {
                    NoteV::Neighbours(s.graph[c].edges)
                },
            }
        },
    }
}

/// What the `move` command does: a pin-not-found diagnostic for an
/// unknown pin, a diagnostic for a failed move, a repositioned pin for a
/// successful one.
pub open spec fn move_step(s: SessionView, pname: Seq<char>, e: Seq<char>) -> StepRes {
    if !s.pins.contains_key(pname) {
        StepRes { s, exit: false, notes: seq![NoteV::PinNotFound(pname)] }
    } else {
        match s.pins[pname].current {
            Option::None => StepRes { s, exit: false, notes: seq![NoteV::NoCurrentNode] },
            Option::Some(c) => if !s.graph.contains_key(c) {
                StepRes { s, exit: false, notes: seq![NoteV::CurrentNodeMissing(c)] }
            } else if !s.graph[c].edges.contains_key(e) {
                StepRes { s, exit: false, notes: seq![NoteV::PathMissing(e, c)] }
            } else {
                StepRes {
                    s: SessionView {
                        pins: s.pins.insert(
                            pname,
                            PinView { current: Option::Some(s.graph[c].edges[e]) },
                        ),
                        ..s
                    },
                    exit: false,
                    notes: Seq::empty(),
                }
            },
        }
    }
}

/// What one command does to the session.
pub open spec fn step(s: SessionView, c: CommandV) -> StepRes {
    match c {
        CommandV::Exit => StepRes { s, exit: true, notes: Seq::empty() },
        CommandV::CreateNode(name) => StepRes {
            s: SessionView { graph: add_node_spec(s.graph, name), ..s },
            exit: false,
            notes: Seq::empty(),
        },
        CommandV::CreateEdge(n1, n2, e) => if s.graph.contains_key(n1) && s.graph.contains_key(
            n2,
        ) {
            StepRes {
                s: SessionView { graph: add_edge_spec(s.graph, n1, n2, e), ..s },
                exit: false,
                notes: Seq::empty(),
            }
        } else {
            StepRes { s, exit: false, notes: seq![NoteV::EdgeNodesMissing(n1, n2)] }
        },
        CommandV::CreatePin(name, p) => StepRes {
            s: SessionView { pins: s.pins.insert(name, p), ..s },
            exit: false,
            notes: Seq::empty(),
        },
        CommandV::RemoveNode(name) => if s.graph.contains_key(name) {
            StepRes {
                s: SessionView { graph: remove_node_spec(s.graph, name), ..s },
                exit: false,
                notes: seq![NoteV::NodeRemoved(name)],
            }
        } else {
            StepRes { s, exit: false, notes: seq![NoteV::NodeNotFound(name)] }
        },
        CommandV::RemoveEdge(nn, en) => if s.graph.contains_key(nn)
            && s.graph[nn].edges.contains_key(en) {
            StepRes {
                s: SessionView { graph: remove_edge_spec(s.graph, nn, en), ..s },
                exit: false,
                notes: seq![NoteV::EdgeRemoved(en, nn)],
            }
        } else {
            StepRes { s, exit: false, notes: seq![NoteV::EdgeNotFound(en, nn)] }
        },
        CommandV::RemovePin(name) => if s.pins.contains_key(name) {
            StepRes {
                s: SessionView { pins: s.pins.remove(name), ..s },
                exit: false,
                notes: seq![NoteV::PinRemoved(name)],
            }
        } else {
            StepRes { s, exit: false, notes: seq![NoteV::PinNotFound(name)] }
        },
        CommandV::Switch(name) => if s.pins.contains_key(name) {
            StepRes {
                s: SessionView { current_pin: Option::Some(name), ..s },
                exit: false,
                notes: Seq::empty(),
            }
        } else {
            StepRes { s, exit: false, notes: seq![NoteV::PinNotFound(name)] }
        },
        CommandV::Current => StepRes { s, exit: false, notes: seq![current_note(s)] },
        CommandV::ListNeighbours => StepRes { s, exit: false, notes: seq![neighbours_note(s)] },
        CommandV::Move(pname, e) => move_step(s, pname, e),
        CommandV::Nop => StepRes { s, exit: false, notes: Seq::empty() },
    }
}

/// Running a command list: the commands run in order until the first
/// `Exit`, which ends the session at once; the feedback accumulates.
pub open spec fn run(s: SessionView, cs: Seq<CommandV>) -> StepRes
    decreases cs.len(),
{
    if cs.len() == 0 {
        StepRes { s, exit: false, notes: Seq::empty() }
    } else {
        let st = step(s, cs[0]);
        if st.exit {
            st
        } else {
            let rest = run(st.s, cs.drop_first());
            StepRes { s: rest.s, exit: rest.exit, notes: st.notes + rest.notes }
        }
    }
}

impl CommandLineEditor {
    /// Applies one command; returns whether the session should end and the
    /// feedback produced, exactly as [`step`] describes.
    fn execute_one(&mut self, cmd: &Command) -> (r: (bool, Vec<Note>))
        requires
            old(self).wf(),
        ensures
            final(self).wf(),
            ({
                let st = step(old(self)@, cmd@);
                &&& final(self)@ == st.s
                &&& r.0 == st.exit
                &&& notes_view(r.1@) == st.notes
            }),
    {
        let ghost st = step(old(self)@, cmd@);
        let mut notes: Vec<Note> = Vec::new();
        let mut exit = false;
        match cmd {
            Command::Exit => {
                exit = true;
            },
            Command::CreateNode(name) => {
                self.graph.add_node(name.clone());
            },
            Command::CreateEdge(n1, n2, e) => {
                let ok = self.graph.add_edge(n1.clone(), n2.clone(), e.clone());
                if !ok {
                    notes.push(Note::EdgeNodesMissing(n1.clone(), n2.clone()));
                }
            },
            Command::CreatePin(name, p) => {
                self.pin(name.clone(), p.clone());
            },
            Command::RemoveNode(name) => {
                if self.graph.remove_node(name.as_str()) {
                    notes.push(Note::NodeRemoved(name.clone()));
                } else {
                    notes.push(Note::NodeNotFound(name.clone()));
                }
            },
            Command::RemoveEdge(nn, en) => {
                if self.graph.remove_edge(nn.as_str(), en.as_str()) {
                    notes.push(Note::EdgeRemoved(en.clone(), nn.clone()));
                } else {
                    notes.push(Note::EdgeNotFound(en.clone(), nn.clone()));
                }
            },
            Command::RemovePin(name) => {
                match self.pins.remove(name.as_str()) {
                    Option::Some(_) => notes.push(Note::PinRemoved(name.clone())),
                    Option::None => notes.push(Note::PinNotFound(name.clone())),
                }
            },
            Command::Switch(name) => {
                let ok = self.go_to_pin(name.clone());
                if !ok {
                    notes.push(Note::PinNotFound(name.clone()));
                }
            },
            Command::Current => {
                match self.current_pin() {
                    Ok(p) => notes.push(Note::CurrentNode(p.print_current())),
                    Err(PinSelectorError::NoCurrentPin) => notes.push(Note::NoCurrentPin),
                    Err(PinSelectorError::CurrentPinMissing) => notes.push(
                        Note::CurrentPinMissing,
                    ),
                }
            },
            Command::ListNeighbours => {
                match self.current_pin() {
                    Ok(p) => {
                        match p.show_neighbours(&self.graph) {
                            NeighboursOutcome::Listed(v) => {
                                proof {
                                    let c = p@.current.unwrap();
                                    lemma_pairs_map_of_entries(
                                        self.graph.nodes.spec_at(c).edges,
                                        v@,
                                    );
                                }
                                notes.push(Note::Neighbours(v));
                            },
                            NeighboursOutcome::NoCurrent => notes.push(Note::NoCurrentNode),
                            NeighboursOutcome::CurrentMissing => {
                                match p.current {
                                    Option::Some(c) => notes.push(Note::CurrentNodeMissing(c)),
                                    Option::None => notes.push(Note::NoCurrentNode),
                                }
                            },
                        }
                    },
                    Err(PinSelectorError::NoCurrentPin) => notes.push(Note::NoCurrentPin),
                    Err(PinSelectorError::CurrentPinMissing) => notes.push(
                        Note::CurrentPinMissing,
                    ),
                }
            },
            Command::Move(pname, e) => {
                let ghost pre = self@;
                match self.pins.remove(pname.as_str()) {
                    Option::None => {
                        notes.push(Note::PinNotFound(pname.clone()));
                        proof {
                            assert(self@.pins =~= pre.pins);
                        }
                    },
                    Option::Some(mut pin) => {
                        let outcome = pin.move_to(&self.graph, e.clone());
                        match outcome {
                            MoveOutcome::Moved => {},
                            MoveOutcome::NoCurrent => notes.push(Note::NoCurrentNode),
                            MoveOutcome::CurrentMissing => {
                                match &pin.current {
                                    Option::Some(c) => notes.push(
                                        Note::CurrentNodeMissing(c.clone()),
                                    ),
                                    Option::None => notes.push(Note::NoCurrentNode),
                                }
                            },
                            MoveOutcome::NoSuchEdge => {
                                match &pin.current {
                                    Option::Some(c) => notes.push(
                                        Note::PathMissing(e.clone(), c.clone()),
                                    ),
                                    Option::None => notes.push(Note::NoCurrentNode),
                                }
                            },
                        }
                        self.pins.insert(pname.clone(), pin);
                        proof {
                            assert(self@.pins =~= move_step(pre, pname@, e@).s.pins);
                        }
                    },
                }
            },
            Command::Nop => {},
        }
        proof {
            assert(self@ =~~= st.s);
        }
        (exit, notes)
    }

    /// Applies the commands in order until the first `Exit`; returns
    /// whether the session should end and all feedback produced, exactly
    /// as [`run`] describes.
    pub fn execute_command(&mut self, commands: Vec<Command>) -> (r: (bool, Vec<Note>))
        requires
            old(self).wf(),
        ensures
            final(self).wf(),
            final(self)@ == run(old(self)@, commands_view(commands@)).s,
            r.0 == run(old(self)@, commands_view(commands@)).exit,
            notes_view(r.1@) == run(old(self)@, commands_view(commands@)).notes,
    {
        let ghost out = run(old(self)@, commands_view(commands@));
        let n = commands.len();
        let mut i: usize = 0;
        let mut notes: Vec<Note> = Vec::new();
        proof {
            assert(commands_view(commands@).skip(0) =~= commands_view(commands@));
            assert(notes_view(notes@) + out.notes =~= out.notes);
        }
        while i < n
            invariant
                n == commands@.len(),
                i <= n,
                self.wf(),
                out == run(old(self)@, commands_view(commands@)),
                ({
                    let rest = run(self@, commands_view(commands@).skip(i as int));
                    &&& out.s == rest.s
                    &&& out.exit == rest.exit
                    &&& out.notes == notes_view(notes@) + rest.notes
                }),
            decreases n - i,
        {
            let ghost pre_notes = notes@;
            let ghost pre_state = self@;
            let ghost suffix = commands_view(commands@).skip(i as int);
            let cmd = &commands[i];
            let (ex, mut ns) = self.execute_one(cmd);
            let ghost st = step(pre_state, cmd@);
            notes.append(&mut ns);
            proof {
                assert(suffix[0] == cmd@);
                assert(suffix.drop_first() =~= commands_view(commands@).skip(i + 1));
                assert(notes_view(notes@) =~= notes_view(pre_notes) + st.notes);
            }
            if ex {
                proof {
                    let rest = run(pre_state, suffix);
                    assert(rest == st);
                    assert(self@ == out.s);
                    assert(out.exit);
                    assert(notes_view(notes@) =~= out.notes);
                }
                return (true, notes);
            }
            i = i + 1;
            proof {
                let tail = run(self@, commands_view(commands@).skip(i as int)).notes;
                assert(notes_view(pre_notes) + (st.notes + tail) =~= notes_view(notes@) + tail);
            }
        }
        proof {
            assert(commands_view(commands@).skip(n as int) =~= Seq::<CommandV>::empty());
            assert(out.notes =~= notes_view(notes@));
        }
        (false, notes)
    }
}

} // verus!

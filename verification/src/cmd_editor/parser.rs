//! The parser: pops the command word off the token stream, then its
//! arguments in command-defined order, resolving `@` address tokens
//! through the pin table. Its meaning is the specification-level
//! function [`parse_view`], which the executable code is proved to
//! follow; the two listing commands additionally report their lines at
//! parse time, described by [`listing_notes`].

use vstd::prelude::*;
use super::{CommandLineEditor, Note, NoteV, SessionView, notes_view};
use super::executer::{Command, CommandV};
use super::lexer::{Token, TokenV, token_text, tokens_view};
use crate::pin::{Pin, PinView};
use crate::strutil::{dec_str, str_eq, trim_spec, trim_str};

verus! {

/// The aliases that end the session.
pub open spec fn kw_exit(k: Seq<char>) -> bool {
    k == "ex"@ || k == "exit"@ || k == "esc"@ || k == "escape"@
}

/// The aliases that create a node.
pub open spec fn kw_node(k: Seq<char>) -> bool {
    k == "cn"@ || k == "node"@
}

/// The aliases that remove a node.
pub open spec fn kw_removenode(k: Seq<char>) -> bool {
    k == "rn"@ || k == "removenode"@
}

/// The aliases that create an edge.
pub open spec fn kw_edge(k: Seq<char>) -> bool {
    k == "ce"@ || k == "edge"@ || k == "createedge"@
}

/// The aliases that remove an edge.
pub open spec fn kw_removeedge(k: Seq<char>) -> bool {
    k == "re"@ || k == "removeedge"@
}

/// The aliases that create a pin.
pub open spec fn kw_pin(k: Seq<char>) -> bool {
    k == "cp"@ || k == "pin"@ || k == "createpin"@
}

/// The aliases that remove a pin.
pub open spec fn kw_removepin(k: Seq<char>) -> bool {
    k == "rp"@ || k == "removepin"@
}

/// The aliases that select the current pin.
pub open spec fn kw_switch(k: Seq<char>) -> bool {
    k == "sw"@ || k == "switch"@ || k == "swich"@
}

/// The aliases that print the current node.
pub open spec fn kw_current(k: Seq<char>) -> bool {
    k == "sc"@ || k == "current"@
}

/// The aliases that list the current node's neighbours.
pub open spec fn kw_neighbours(k: Seq<char>) -> bool {
    k == "ls"@ || k == "listneighbours"@
}

/// The aliases that list every node.
pub open spec fn kw_listall(k: Seq<char>) -> bool {
    k == "la"@ || k == "listall"@
}

/// The aliases that list every pin.
pub open spec fn kw_listvisitors(k: Seq<char>) -> bool {
    k == "lv"@ || k == "listvisitors"@
}

/// The aliases that move a pin.
pub open spec fn kw_move(k: Seq<char>) -> bool {
    k == "mv"@ || k == "move"@
}

/// What resolving one node-name argument yields: the name, at most one
/// diagnostic, and how far the auto-naming counter advanced.
pub struct ResolvedV {
    pub name: Seq<char>,
    pub notes: Seq<NoteV>,
    pub bump: nat,
}

/// Resolving a node-name argument against the pin table: a plain token is
/// taken literally; an address token becomes the referenced pin's current
/// node, or, with a diagnostic, the pin name itself when the pin or its
/// current node is absent; a missing token becomes the next auto name.
pub open spec fn resolve_view(
    pins: Map<Seq<char>, PinView>,
    tvs: Seq<TokenV>,
    counter: nat,
) -> ResolvedV {
    if tvs.len() == 0 {
        ResolvedV { name: "node"@ + dec_str(counter + 1), notes: Seq::empty(), bump: 1 }
    } else {
        match tvs.last() {
            TokenV::Alphanumeric(w) => ResolvedV { name: w, notes: Seq::empty(), bump: 0 },
            TokenV::Adress(a) => {
                if pins.contains_key(a) && pins[a].current is Some {
                    ResolvedV { name: pins[a].current.unwrap(), notes: Seq::empty(), bump: 0 }
                } else {
                    ResolvedV { name: a, notes: seq![NoteV::PinUnresolved(a)], bump: 0 }
                }
            },
        }
    }
}

/// The token stream after one argument was popped, if one was there.
pub open spec fn rest_of(tvs: Seq<TokenV>) -> Seq<TokenV> {
    if tvs.len() == 0 {
        tvs
    } else {
        tvs.drop_last()
    }
}

/// One where a token was popped, zero where none was left.
pub open spec fn eat1(tvs: Seq<TokenV>) -> nat {
    if tvs.len() == 0 {
        0
    } else {
        1
    }
}

/// The text of a popped raw argument, or empty where none was left.
pub open spec fn raw_arg(tvs: Seq<TokenV>) -> Seq<char> {
    if tvs.len() == 0 {
        Seq::empty()
    } else {
        token_text(tvs.last())
    }
}

/// What the parser yields for one line: the command, the diagnostics (the
/// listing lines aside), the counter advance, and how many tokens it ate.
pub struct ParseOutV {
    pub cmd: CommandV,
    pub notes: Seq<NoteV>,
    pub bump: nat,
    pub eat: nat,
}

/// The command selected by a recognised keyword, with `rest` holding the
/// tokens after the command word.
pub open spec fn parse_keyword(
    pins: Map<Seq<char>, PinView>,
    counter: nat,
    kw: Seq<char>,
    rest: Seq<TokenV>,
) -> ParseOutV {
    if kw_exit(kw) {
        ParseOutV { cmd: CommandV::Exit, notes: Seq::empty(), bump: 0, eat: 1 }
    } else if kw_node(kw) {
        let r1 = resolve_view(pins, rest, counter);
        ParseOutV {
            cmd: CommandV::CreateNode(trim_spec(r1.name)),
            notes: r1.notes,
            bump: r1.bump,
            eat: 1 + eat1(rest),
        }
    } else if kw_removenode(kw) {
        ParseOutV {
            cmd: CommandV::RemoveNode(trim_spec(raw_arg(rest))),
            notes: Seq::empty(),
            bump: 0,
            eat: 1 + eat1(rest),
        }
    } else if kw_edge(kw) {
        let r1 = resolve_view(pins, rest, counter);
        let rest1 = rest_of(rest);
        let r2 = resolve_view(pins, rest1, counter + r1.bump);
        let rest2 = rest_of(rest1);
        if rest2.len() == 0 {
            ParseOutV {
                cmd: CommandV::Nop,
                notes: r1.notes + r2.notes + seq![NoteV::MissingArgument(kw)],
                bump: r1.bump + r2.bump,
                eat: 1 + eat1(rest) + eat1(rest1),
            }
        } else {
            ParseOutV {
                cmd: CommandV::CreateEdge(
                    trim_spec(r1.name),
                    trim_spec(r2.name),
                    trim_spec(token_text(rest2.last())),
                ),
                notes: r1.notes + r2.notes,
                bump: r1.bump + r2.bump,
                eat: 1 + eat1(rest) + eat1(rest1) + 1,
            }
        }
    } else if kw_removeedge(kw) {
        let r1 = resolve_view(pins, rest, counter);
        let rest1 = rest_of(rest);
        if rest1.len() == 0 {
            ParseOutV {
                cmd: CommandV::Nop,
                notes: r1.notes + seq![NoteV::MissingArgument(kw)],
                bump: r1.bump,
                eat: 1 + eat1(rest),
            }
        } else {
            ParseOutV {
                cmd: CommandV::RemoveEdge(
                    trim_spec(r1.name),
                    trim_spec(token_text(rest1.last())),
                ),
                notes: r1.notes,
                bump: r1.bump,
                eat: 1 + eat1(rest) + 1,
            }
        }
    } else if kw_pin(kw) {
        if rest.len() == 0 {
            ParseOutV {
                cmd: CommandV::Nop,
                notes: seq![NoteV::MissingArgument(kw)],
                bump: 0,
                eat: 1,
            }
        } else {
            let pname = token_text(rest.last());
            let rest1 = rest.drop_last();
            let r1 = resolve_view(pins, rest1, counter);
            ParseOutV {
                cmd: CommandV::CreatePin(
                    pname,
                    PinView { current: Option::Some(trim_spec(r1.name)) },
                ),
                notes: r1.notes,
                bump: r1.bump,
                eat: 2 + eat1(rest1),
            }
        }
    } else if kw_removepin(kw) {
        ParseOutV {
            cmd: CommandV::RemovePin(trim_spec(raw_arg(rest))),
            notes: Seq::empty(),
            bump: 0,
            eat: 1 + eat1(rest),
        }
    } else if kw_switch(kw) {
        if rest.len() == 0 {
            ParseOutV {
                cmd: CommandV::Nop,
                notes: seq![NoteV::MissingArgument(kw)],
                bump: 0,
                eat: 1,
            }
        } else {
            ParseOutV {
                cmd: CommandV::Switch(trim_spec(token_text(rest.last()))),
                notes: Seq::empty(),
                bump: 0,
                eat: 2,
            }
        }
    } else if kw_current(kw) {
        ParseOutV { cmd: CommandV::Current, notes: Seq::empty(), bump: 0, eat: 1 }
    } else if kw_neighbours(kw) {
        ParseOutV { cmd: CommandV::ListNeighbours, notes: Seq::empty(), bump: 0, eat: 1 }
    } else if kw_listall(kw) || kw_listvisitors(kw) {
        ParseOutV { cmd: CommandV::Nop, notes: Seq::empty(), bump: 0, eat: 1 }
    } else if kw_move(kw) {
        if rest.len() == 0 {
            ParseOutV {
                cmd: CommandV::Nop,
                notes: seq![NoteV::MissingArgument(kw)],
                bump: 0,
                eat: 1,
            }
        } else {
            let pname = token_text(rest.last());
            let rest1 = rest.drop_last();
            if rest1.len() == 0 {
                ParseOutV {
                    cmd: CommandV::Nop,
                    notes: seq![NoteV::MissingArgument(kw)],
                    bump: 0,
                    eat: 2,
                }
            } else {
                ParseOutV {
                    cmd: CommandV::Move(
                        trim_spec(pname),
                        trim_spec(token_text(rest1.last())),
                    ),
                    notes: Seq::empty(),
                    bump: 0,
                    eat: 3,
                }
            }
        }
    } else if kw == Seq::<char>::empty() {
        ParseOutV { cmd: CommandV::Nop, notes: Seq::empty(), bump: 0, eat: 1 }
    } else {
        ParseOutV { cmd: CommandV::Nop, notes: seq![NoteV::UnknownCommand(kw)], bump: 0, eat: 1 }
    }
}

/// What the parser yields for a token stream: an empty stream is a no-op,
/// an address token in command position is reported as unsupported input,
/// and a plain token selects the command by keyword.
pub open spec fn parse_view(
    pins: Map<Seq<char>, PinView>,
    counter: nat,
    tvs: Seq<TokenV>,
) -> ParseOutV {
    if tvs.len() == 0 {
        ParseOutV { cmd: CommandV::Nop, notes: Seq::empty(), bump: 0, eat: 0 }
    } else {
        match tvs.last() {
            TokenV::Adress(a) => ParseOutV {
                cmd: CommandV::Nop,
                notes: seq![NoteV::AddressCommand(a)],
                bump: 0,
                eat: 1,
            },
            TokenV::Alphanumeric(kw) => parse_keyword(pins, counter, kw, tvs.drop_last()),
        }
    }
}

/// The listing lines the two listing commands print at parse time: one
/// per stored node resp. pin, in stored order.
pub open spec fn listing_notes(ed: CommandLineEditor, tvs: Seq<TokenV>) -> Seq<NoteV> {
    if tvs.len() == 0 {
        Seq::empty()
    } else {
        match tvs.last() {
            TokenV::Adress(_) => Seq::empty(),
            TokenV::Alphanumeric(kw) => if kw_listall(kw) {
                Seq::new(
                    ed.graph.nodes.entries().len(),
                    |i: int| NoteV::NodeLine(ed.graph.nodes.entries()[i].0@),
                )
            } else if kw_listvisitors(kw) {
                Seq::new(
                    ed.pins.entries().len(),
                    |i: int|
                        NoteV::PinLine(ed.pins.entries()[i].0@, ed.pins.entries()[i].1@.current),
                )
            } else {
                Seq::empty()
            },
        }
    }
}

impl CommandLineEditor {
    /// Pops one node-name argument and resolves it, as [`resolve_view`]
    /// describes: address tokens go through the pin table, a missing
    /// token becomes the next auto-generated name.
    pub fn parse_node_name(&mut self, command: &mut Vec<Token>) -> (r: (String, Vec<Note>))
        requires
            old(self).wf(),
            old(self).placeholder < usize::MAX,
        ensures
            final(self).wf(),
            r.0@ == resolve_view(
                old(self)@.pins,
                tokens_view(old(command)@),
                old(self)@.placeholder,
            ).name,
            notes_view(r.1@) == resolve_view(
                old(self)@.pins,
                tokens_view(old(command)@),
                old(self)@.placeholder,
            ).notes,
            final(self)@ == (SessionView {
                placeholder: old(self)@.placeholder + resolve_view(
                    old(self)@.pins,
                    tokens_view(old(command)@),
                    old(self)@.placeholder,
                ).bump,
                ..old(self)@
            }),
            final(command)@ == rest_of_exec(old(command)@),
    {
        proof {
            assert(tokens_view(old(command)@).len() == old(command)@.len());
        }
        match command.pop() {
            Option::None => {
                let suffix = self.next_free();
                let mut name = String::from_str("node");
                name.append(suffix.as_str());
                proof {
                    assert(final(self)@ =~~= (SessionView {
                        placeholder: old(self)@.placeholder + 1,
                        ..old(self)@
                    }));
                    assert(notes_view(Seq::<Note>::empty()) =~= Seq::<NoteV>::empty());
                }
                (name, Vec::new())
            },
            Option::Some(Token::Alphanumeric(w)) => {
                proof {
                    assert(tokens_view(old(command)@).last() == old(command)@.last()@);
                    assert(notes_view(Seq::<Note>::empty()) =~= Seq::<NoteV>::empty());
                }
                (w, Vec::new())
            },
            Option::Some(Token::Adress(a)) => {
                proof {
                    assert(tokens_view(old(command)@).last() == old(command)@.last()@);
                }
                let resolved: Option<String> = match self.pins.get(a.as_str()) {
                    Option::Some(p) => match &p.current {
                        Option::Some(c) => Option::Some(c.clone()),
                        Option::None => Option::None,
                    },
                    Option::None => Option::None,
                };
                match resolved {
                    Option::Some(c) => {
                        proof {
                            assert(notes_view(Seq::<Note>::empty()) =~= Seq::<NoteV>::empty());
                        }
                        (c, Vec::new())
                    },
                    Option::None => {
                        let mut ns: Vec<Note> = Vec::new();
                        ns.push(Note::PinUnresolved(a.clone()));
                        (a, ns)
                    },
                }
            },
        }
    }
}

/// The token vector after one pop, if a token was there.
pub open spec fn rest_of_exec(ts: Seq<Token>) -> Seq<Token> {
    if ts.len() == 0 {
        ts
    } else {
        ts.drop_last()
    }
}

impl CommandLineEditor {
    /// Turns a token stream into one structured command plus diagnostics,
    /// as [`parse_view`] describes; the two listing commands additionally
    /// yield their lines, as [`listing_notes`] describes.
    #[verifier::rlimit(60)]
    pub fn parse_command(&mut self, command: &mut Vec<Token>) -> (r: (Vec<Command>, Vec<Note>))
        requires
            old(self).wf(),
            old(self).placeholder <= usize::MAX - 2,
        ensures
            final(self).wf(),
            r.0@.len() == 1,
            r.0@[0]@ == parse_view(
                old(self)@.pins,
                old(self)@.placeholder,
                tokens_view(old(command)@),
            ).cmd,
            notes_view(r.1@) == parse_view(
                old(self)@.pins,
                old(self)@.placeholder,
                tokens_view(old(command)@),
            ).notes + listing_notes(*old(self), tokens_view(old(command)@)),
            final(self)@ == (SessionView {
                placeholder: old(self)@.placeholder + parse_view(
                    old(self)@.pins,
                    old(self)@.placeholder,
                    tokens_view(old(command)@),
                ).bump,
                ..old(self)@
            }),
            final(command)@ == old(command)@.take(
                old(command)@.len() - parse_view(
                    old(self)@.pins,
                    old(self)@.placeholder,
                    tokens_view(old(command)@),
                ).eat as int,
            ),
    {
        let ghost tvs = tokens_view(old(command)@);
        let ghost pins0 = old(self)@.pins;
        let ghost c0 = old(self)@.placeholder;
        let ghost pv = parse_view(pins0, c0, tvs);
        let ghost lnotes = listing_notes(*old(self), tvs);
        let mut notes: Vec<Note> = Vec::new();
        let mut cmds: Vec<Command> = Vec::new();
        proof {
            assert(tvs.len() == old(command)@.len());
            if old(command)@.len() > 0 {
                assert(tvs.last() == old(command)@.last()@);
            }
        }
        let head = match command.pop() {
            Option::Some(t) => t,
            Option::None => Token::default(),
        };
        proof {
            if tvs.len() > 0 {
                assert(tvs.drop_last() =~= tokens_view(command@));
            }
        }
        match head {
            Token::Adress(a) => {
                notes.push(Note::AddressCommand(a));
                cmds.push(Command::Nop);
                proof {
                    assert(notes_view(notes@) =~= pv.notes + lnotes);
                }
            },
            Token::Alphanumeric(kw) => {
                let ghost krest = tokens_view(command@);
                // Pin every keyword literal to its characters once, so each
                // branch below can tell the aliases apart (and from the
                // empty keyword of a defaulted token).
                proof {
                    reveal_strlit("ex");
                    assert("ex"@ =~= seq!['e', 'x']);
                    reveal_strlit("exit");
                    assert("exit"@ =~= seq!['e', 'x', 'i', 't']);
                    reveal_strlit("esc");
                    assert("esc"@ =~= seq!['e', 's', 'c']);
                    reveal_strlit("escape");
                    assert("escape"@ =~= seq!['e', 's', 'c', 'a', 'p', 'e']);
                    reveal_strlit("cn");
                    assert("cn"@ =~= seq!['c', 'n']);
                    reveal_strlit("node");
                    assert("node"@ =~= seq!['n', 'o', 'd', 'e']);
                    reveal_strlit("rn");
                    assert("rn"@ =~= seq!['r', 'n']);
                    reveal_strlit("removenode");
                    assert("removenode"@ =~= seq!['r', 'e', 'm', 'o', 'v', 'e', 'n', 'o', 'd', 'e']);
                    reveal_strlit("ce");
                    assert("ce"@ =~= seq!['c', 'e']);
                    reveal_strlit("edge");
                    assert("edge"@ =~= seq!['e', 'd', 'g', 'e']);
                    reveal_strlit("createedge");
                    assert("createedge"@ =~= seq!['c', 'r', 'e', 'a', 't', 'e', 'e', 'd', 'g', 'e']);
                    reveal_strlit("re");
                    assert("re"@ =~= seq!['r', 'e']);
                    reveal_strlit("removeedge");
                    assert("removeedge"@ =~= seq!['r', 'e', 'm', 'o', 'v', 'e', 'e', 'd', 'g', 'e']);
                    reveal_strlit("cp");
                    assert("cp"@ =~= seq!['c', 'p']);
                    reveal_strlit("pin");
                    assert("pin"@ =~= seq!['p', 'i', 'n']);
                    reveal_strlit("createpin");
                    assert("createpin"@ =~= seq!['c', 'r', 'e', 'a', 't', 'e', 'p', 'i', 'n']);
                    reveal_strlit("rp");
                    assert("rp"@ =~= seq!['r', 'p']);
                    reveal_strlit("removepin");
                    assert("removepin"@ =~= seq!['r', 'e', 'm', 'o', 'v', 'e', 'p', 'i', 'n']);
                    reveal_strlit("sw");
                    assert("sw"@ =~= seq!['s', 'w']);
                    reveal_strlit("switch");
                    assert("switch"@ =~= seq!['s', 'w', 'i', 't', 'c', 'h']);
                    reveal_strlit("swich");
                    assert("swich"@ =~= seq!['s', 'w', 'i', 'c', 'h']);
                    reveal_strlit("sc");
                    assert("sc"@ =~= seq!['s', 'c']);
                    reveal_strlit("current");
                    assert("current"@ =~= seq!['c', 'u', 'r', 'r', 'e', 'n', 't']);
                    reveal_strlit("ls");
                    assert("ls"@ =~= seq!['l', 's']);
                    reveal_strlit("listneighbours");
                    assert("listneighbours"@ =~= seq!['l', 'i', 's', 't', 'n', 'e', 'i', 'g', 'h', 'b', 'o', 'u', 'r', 's']);
                    reveal_strlit("la");
                    assert("la"@ =~= seq!['l', 'a']);
                    reveal_strlit("listall");
                    assert("listall"@ =~= seq!['l', 'i', 's', 't', 'a', 'l', 'l']);
                    reveal_strlit("lv");
                    assert("lv"@ =~= seq!['l', 'v']);
                    reveal_strlit("listvisitors");
                    assert("listvisitors"@ =~= seq!['l', 'i', 's', 't', 'v', 'i', 's', 'i', 't', 'o', 'r', 's']);
                    reveal_strlit("mv");
                    assert("mv"@ =~= seq!['m', 'v']);
                    reveal_strlit("move");
                    assert("move"@ =~= seq!['m', 'o', 'v', 'e']);
                }
                if str_eq(kw.as_str(), "ex") || str_eq(kw.as_str(), "exit") || str_eq(
                    kw.as_str(),
                    "esc",
                ) || str_eq(kw.as_str(), "escape") {
                    proof {
                        assert(tvs.len() > 0);
                    }
                    cmds.push(Command::Exit);
                    proof {
                        assert(notes_view(notes@) =~= pv.notes + lnotes);
                    }
                } else if str_eq(kw.as_str(), "cn") || str_eq(kw.as_str(), "node") {
                    proof {
                        assert(tvs.len() > 0);
                    }
                    let (name, mut ns) = self.parse_node_name(command);
                    notes.append(&mut ns);
                    cmds.push(Command::CreateNode(trim_str(name.as_str())));
                    proof {
                        assert(notes_view(notes@) =~= pv.notes + lnotes);
                    }
                } else if str_eq(kw.as_str(), "rn") || str_eq(kw.as_str(), "removenode") {
                    proof {
                        assert(tvs.len() > 0);
                    }
                    let tok = match command.pop() {
                        Option::Some(t) => t,
                        Option::None => Token::default(),
                    };
                    cmds.push(Command::RemoveNode(tok.trim()));
                    proof {
                        assert(notes_view(notes@) =~= pv.notes + lnotes);
                    }
                } else if str_eq(kw.as_str(), "ce") || str_eq(kw.as_str(), "edge") || str_eq(
                    kw.as_str(),
                    "createedge",
                ) {
                    proof {
                        assert(tvs.len() > 0);
                    }
                    let (n1, mut ns1) = self.parse_node_name(command);
                    notes.append(&mut ns1);
                    proof {
                        assert(tokens_view(command@) =~= rest_of(krest));
                    }
                    let (n2, mut ns2) = self.parse_node_name(command);
                    notes.append(&mut ns2);
                    proof {
                        assert(tokens_view(command@) =~= rest_of(rest_of(krest)));
                    }
                    match command.pop() {
                        Option::None => {
                            notes.push(Note::MissingArgument(kw.clone()));
                            cmds.push(Command::Nop);
                        },
                        Option::Some(t) => {
                            cmds.push(
                                Command::CreateEdge(
                                    trim_str(n1.as_str()),
                                    trim_str(n2.as_str()),
                                    t.trim(),
                                ),
                            );
                        },
                    }
                    proof {
                        assert(notes_view(notes@) =~= pv.notes);
                    }
                } else if str_eq(kw.as_str(), "re") || str_eq(kw.as_str(), "removeedge") {
                    proof {
                        assert(tvs.len() > 0);
                    }
                    let (n1, mut ns1) = self.parse_node_name(command);
                    notes.append(&mut ns1);
                    proof {
                        assert(tokens_view(command@) =~= rest_of(krest));
                    }
                    match command.pop() {
                        Option::None => {
                            notes.push(Note::MissingArgument(kw.clone()));
                            cmds.push(Command::Nop);
                        },
                        Option::Some(t) => {
                            cmds.push(Command::RemoveEdge(trim_str(n1.as_str()), t.trim()));
                        },
                    }
                    proof {
                        assert(notes_view(notes@) =~= pv.notes);
                    }
                } else if str_eq(kw.as_str(), "cp") || str_eq(kw.as_str(), "pin") || str_eq(
                    kw.as_str(),
                    "createpin",
                ) {
                    proof {
                        assert(tvs.len() > 0);
                    }
                    match command.pop() {
                        Option::None => {
                            notes.push(Note::MissingArgument(kw.clone()));
                            cmds.push(Command::Nop);
                        },
                        Option::Some(t) => {
                            let pname = t.to_string();
                            proof {
                                assert(tokens_view(command@) =~= krest.drop_last());
                            }
                            let (nn, mut ns) = self.parse_node_name(command);
                            notes.append(&mut ns);
                            let visitor = Pin::new(Option::Some(trim_str(nn.as_str())));
                            cmds.push(Command::CreatePin(pname, visitor));
                        },
                    }
                    proof {
                        assert(notes_view(notes@) =~= pv.notes + lnotes);
                    }
                } else if str_eq(kw.as_str(), "rp") || str_eq(kw.as_str(), "removepin") {
                    proof {
                        assert(tvs.len() > 0);
                    }
                    let tok = match command.pop() {
                        Option::Some(t) => t,
                        Option::None => Token::default(),
                    };
                    cmds.push(Command::RemovePin(tok.trim()));
                    proof {
                        assert(notes_view(notes@) =~= pv.notes + lnotes);
                    }
                } else if str_eq(kw.as_str(), "sw") || str_eq(kw.as_str(), "switch") || str_eq(
                    kw.as_str(),
                    "swich",
                ) {
                    proof {
                        assert(tvs.len() > 0);
                    }
                    match command.pop() {
                        Option::None => {
                            notes.push(Note::MissingArgument(kw.clone()));
                            cmds.push(Command::Nop);
                        },
                        Option::Some(t) => {
                            cmds.push(Command::Switch(t.trim()));
                        },
                    }
                    proof {
                        assert(notes_view(notes@) =~= pv.notes + lnotes);
                    }
                } else if str_eq(kw.as_str(), "sc") || str_eq(kw.as_str(), "current") {
                    proof {
                        assert(tvs.len() > 0);
                    }
                    cmds.push(Command::Current);
                    proof {
                        assert(notes_view(notes@) =~= pv.notes + lnotes);
                    }
                } else if str_eq(kw.as_str(), "ls") || str_eq(kw.as_str(), "listneighbours") {
                    proof {
                        assert(tvs.len() > 0);
                    }
                    cmds.push(Command::ListNeighbours);
                    proof {
                        assert(notes_view(notes@) =~= pv.notes + lnotes);
                    }
                } else if str_eq(kw.as_str(), "la") || str_eq(kw.as_str(), "listall") {
                    proof {
                        assert(tvs.len() > 0);
                    }
                    let n = self.graph.nodes.len();
                    let mut i: usize = 0;
                    while i < n
                        invariant
                            n == self.graph.nodes.entries().len(),
                            i <= n,
                            notes@.len() == i,
                            forall|j: int|
                                0 <= j < i ==> notes@[j]@ == NoteV::NodeLine(
                                    self.graph.nodes.entries()[j].0@,
                                ),
                        decreases n - i,
                    {
                        notes.push(Note::NodeLine(self.graph.nodes.key_at(i).clone()));
                        i = i + 1;
                    }
                    cmds.push(Command::Nop);
                    proof {
                        assert(notes_view(notes@) =~= lnotes);
                        assert(notes_view(notes@) =~= pv.notes + lnotes);
                    }
                } else if str_eq(kw.as_str(), "lv") || str_eq(kw.as_str(), "listvisitors") {
                    proof {
                        assert(tvs.len() > 0);
                    }
                    let n = self.pins.len();
                    let mut i: usize = 0;
                    while i < n
                        invariant
                            n == self.pins.entries().len(),
                            i <= n,
                            notes@.len() == i,
                            forall|j: int|
                                0 <= j < i ==> notes@[j]@ == NoteV::PinLine(
                                    self.pins.entries()[j].0@,
                                    self.pins.entries()[j].1@.current,
                                ),
                        decreases n - i,
                    {
                        let pname = self.pins.key_at(i).clone();
                        let pcur = self.pins.value_at(i).print_current();
                        notes.push(Note::PinLine(pname, pcur));
                        i = i + 1;
                    }
                    cmds.push(Command::Nop);
                    proof {
                        assert(notes_view(notes@) =~= lnotes);
                        assert(notes_view(notes@) =~= pv.notes + lnotes);
                    }
                } else if str_eq(kw.as_str(), "mv") || str_eq(kw.as_str(), "move") {
                    proof {
                        assert(tvs.len() > 0);
                    }
                    match command.pop() {
                        Option::None => {
                            notes.push(Note::MissingArgument(kw.clone()));
                            cmds.push(Command::Nop);
                        },
                        Option::Some(t1) => match command.pop() {
                            Option::None => {
                                notes.push(Note::MissingArgument(kw.clone()));
                                cmds.push(Command::Nop);
                            },
                            Option::Some(t2) => {
                                cmds.push(Command::Move(t1.trim(), t2.trim()));
                            },
                        },
                    }
                    proof {
                        assert(notes_view(notes@) =~= pv.notes + lnotes);
                    }
                } else if kw.as_str().is_empty() {
                    proof {
                        assert(kw@ =~= Seq::<char>::empty());
                    }
                    cmds.push(Command::Nop);
                    proof {
                        assert(notes_view(notes@) =~= pv.notes + lnotes);
                    }
                } else {
                    notes.push(Note::UnknownCommand(kw));
                    cmds.push(Command::Nop);
                    proof {
                        assert(notes_view(notes@) =~= pv.notes + lnotes);
                    }
                }
            },
        }
        proof {
            assert(cmds@.len() == 1);
            assert(cmds@[0]@ == pv.cmd);
            assert(notes_view(notes@) =~= pv.notes + lnotes);
            assert(self@ =~~= (SessionView { placeholder: c0 + pv.bump, ..old(self)@ }));
            assert(command@ =~= old(command)@.take(old(command)@.len() - pv.eat as int));
        }
        (cmds, notes)
    }
}

} // verus!

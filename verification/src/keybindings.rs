//! Key bindings: parsing textual key descriptions, rendering them back,
//! and the two-way command-key table.
//!
//! Key events arrive from the terminal library in the surrounding
//! application, which converts them into the plain `KeyBinding` value
//! used here.  A key description is modifiers and a key name joined with
//! `-`, as in `ctrl-shift-p`; `cmd` is read as `ctrl` and `meta` as
//! `alt`.

use vstd::prelude::*;
use crate::text::{contains_ci, contains_seq, lemma_split_nonempty, lower_seq, split_on,
    split_sep, str_eq, str_eq_ci, views_of};

verus! {

/// A key, modelled as the plain values the bindings speak of.
#[derive(Clone, Copy, Debug, PartialEq, Eq, Structural)]
pub enum Key {
    Enter,
    Esc,
    Tab,
    Backspace,
    Delete,
    Up,
    Down,
    Left,
    Right,
    Home,
    End,
    PageUp,
    PageDown,
    Function(u8),
    Character(char),
}

/// The modifier keys held together with a key.
#[derive(Clone, Copy, Debug, PartialEq, Eq, Structural)]
pub struct Modifiers {
    pub ctrl: bool,
    pub alt: bool,
    pub shift: bool,
}

impl Modifiers {
    /// No modifier held.
    pub fn none() -> (r: Modifiers)
        ensures
            r == (Modifiers { ctrl: false, alt: false, shift: false }),
    {
        Modifiers { ctrl: false, alt: false, shift: false }
    }
}

/// One key with its modifiers.
#[derive(Clone, Copy, Debug, PartialEq, Eq, Structural)]
pub struct KeyBinding {
    pub key: Key,
    pub modifiers: Modifiers,
}

/// The key a lower-cased name stands for, if any; a single character
/// names itself.
pub open spec fn key_of_name(name: Seq<char>) -> Option<Key> {
    if name == lower_seq("enter"@) {
        Some(Key::Enter)
    } else if name == lower_seq("escape"@) || name == lower_seq("esc"@) {
        Some(Key::Esc)
    } else if name == lower_seq("space"@) {
        Some(Key::Character(' '))
    } else if name == lower_seq("tab"@) {
        Some(Key::Tab)
    } else if name == lower_seq("backspace"@) {
        Some(Key::Backspace)
    } else if name == lower_seq("delete"@) {
        Some(Key::Delete)
    } else if name == lower_seq("up"@) {
        Some(Key::Up)
    } else if name == lower_seq("down"@) {
        Some(Key::Down)
    } else if name == lower_seq("left"@) {
        Some(Key::Left)
    } else if name == lower_seq("right"@) {
        Some(Key::Right)
    } else if name == lower_seq("home"@) {
        Some(Key::Home)
    } else if name == lower_seq("end"@) {
        Some(Key::End)
    } else if name == lower_seq("pageup"@) {
        Some(Key::PageUp)
    } else if name == lower_seq("pagedown"@) {
        Some(Key::PageDown)
    } else if name == lower_seq("f1"@) {
        Some(Key::Function(1))
    } else if name == lower_seq("f2"@) {
        Some(Key::Function(2))
    } else if name == lower_seq("f3"@) {
        Some(Key::Function(3))
    } else if name == lower_seq("f4"@) {
        Some(Key::Function(4))
    } else if name == lower_seq("f5"@) {
        Some(Key::Function(5))
    } else if name == lower_seq("f6"@) {
        Some(Key::Function(6))
    } else if name == lower_seq("f7"@) {
        Some(Key::Function(7))
    } else if name == lower_seq("f8"@) {
        Some(Key::Function(8))
    } else if name == lower_seq("f9"@) {
        Some(Key::Function(9))
    } else if name == lower_seq("f10"@) {
        Some(Key::Function(10))
    } else if name == lower_seq("f11"@) {
        Some(Key::Function(11))
    } else if name == lower_seq("f12"@) {
        Some(Key::Function(12))
    } else if name == lower_seq("grave"@) {
        Some(Key::Character('`'))
    } else if name == lower_seq("slash"@) {
        Some(Key::Character('/'))
    } else if name == lower_seq("comma"@) {
        Some(Key::Character(','))
    } else if name == lower_seq("period"@) {
        Some(Key::Character('.'))
    } else if name.len() == 1 {
        Some(Key::Character(name[0]))
    } else {
        None
    }
}

/// The modifiers a lower-cased name adds, if it is a known modifier:
/// `cmd` is read as `ctrl` and `meta` as `alt`.
pub open spec fn modifier_of_name(name: Seq<char>, m: Modifiers) -> Option<Modifiers> {
    if name == lower_seq("ctrl"@) || name == lower_seq("cmd"@) {
        Some(Modifiers { ctrl: true, ..m })
    } else if name == lower_seq("alt"@) || name == lower_seq("meta"@) {
        Some(Modifiers { alt: true, ..m })
    } else if name == lower_seq("shift"@) {
        Some(Modifiers { shift: true, ..m })
    } else {
        None
    }
}

/// The modifiers collected from the leading parts of a description, or
/// nothing when an unknown modifier occurs.
pub open spec fn modifiers_of(parts: Seq<Seq<char>>, m: Modifiers) -> Option<Modifiers>
    decreases parts.len(),
{
    if parts.len() == 0 {
        Some(m)
    } else {
        match modifier_of_name(lower_seq(parts[0]), m) {
            Some(next) => modifiers_of(parts.drop_first(), next),
            None => None,
        }
    }
}

/// The binding a description stands for: the parts before the last `-`
/// name modifiers, the last part names the key.
pub open spec fn binding_of(s: Seq<char>) -> Option<KeyBinding> {
    let parts = split_sep(s, '-');
    let mods = modifiers_of(
        parts.take(parts.len() - 1),
        Modifiers { ctrl: false, alt: false, shift: false },
    );
    match mods {
        Some(m) => match key_of_name(lower_seq(parts[parts.len() - 1])) {
            Some(k) => Some(KeyBinding { key: k, modifiers: m }),
            None => None,
        },
        None => None,
    }
}

/// Parse error for a key description.
#[derive(Clone, Copy, Debug, PartialEq, Eq, Structural)]
pub struct KeyParseError;

/// The lower-cased key or modifier name matched against the table.
fn key_from_name(part: &str) -> (r: Option<Key>)
    ensures
        r == key_of_name(lower_seq(part@)),
{
    if str_eq_ci(part, "enter") {
        Some(Key::Enter)
    } else if str_eq_ci(part, "escape") || str_eq_ci(part, "esc") {
        Some(Key::Esc)
    } else if str_eq_ci(part, "space") {
        Some(Key::Character(' '))
    } else if str_eq_ci(part, "tab") {
        Some(Key::Tab)
    } else if str_eq_ci(part, "backspace") {
        Some(Key::Backspace)
    } else if str_eq_ci(part, "delete") {
        Some(Key::Delete)
    } else if str_eq_ci(part, "up") {
        Some(Key::Up)
    } else if str_eq_ci(part, "down") {
        Some(Key::Down)
    } else if str_eq_ci(part, "left") {
        Some(Key::Left)
    } else if str_eq_ci(part, "right") {
        Some(Key::Right)
    } else if str_eq_ci(part, "home") {
        Some(Key::Home)
    } else if str_eq_ci(part, "end") {
        Some(Key::End)
    } else if str_eq_ci(part, "pageup") {
        Some(Key::PageUp)
    } else if str_eq_ci(part, "pagedown") {
        Some(Key::PageDown)
    } else if str_eq_ci(part, "f1") {
        Some(Key::Function(1))
    } else if str_eq_ci(part, "f2") {
        Some(Key::Function(2))
    } else if str_eq_ci(part, "f3") {
        Some(Key::Function(3))
    } else if str_eq_ci(part, "f4") {
        Some(Key::Function(4))
    } else if str_eq_ci(part, "f5") {
        Some(Key::Function(5))
    } else if str_eq_ci(part, "f6") {
        Some(Key::Function(6))
    } else if str_eq_ci(part, "f7") {
        Some(Key::Function(7))
    } else if str_eq_ci(part, "f8") {
        Some(Key::Function(8))
    } else if str_eq_ci(part, "f9") {
        Some(Key::Function(9))
    } else if str_eq_ci(part, "f10") {
        Some(Key::Function(10))
    } else if str_eq_ci(part, "f11") {
        Some(Key::Function(11))
    } else if str_eq_ci(part, "f12") {
        Some(Key::Function(12))
    } else if str_eq_ci(part, "grave") {
        Some(Key::Character('`'))
    } else if str_eq_ci(part, "slash") {
        Some(Key::Character('/'))
    } else if str_eq_ci(part, "comma") {
        Some(Key::Character(','))
    } else if str_eq_ci(part, "period") {
        Some(Key::Character('.'))
    } else if part.unicode_len() == 1 {
        let c = part.get_char(0);
        let folded = crate::text::lower_char_exec(c);
        proof {
            assert(lower_seq(part@)[0] == folded);
            assert(lower_seq(part@).len() == 1);
        }
        Some(Key::Character(folded))
    } else {
        proof {
            assert(lower_seq(part@).len() != 1);
        }
        None
    }
}

impl KeyBinding {
    pub fn new(key: Key, modifiers: Modifiers) -> (r: Self)
        ensures
            r.key == key,
            r.modifiers == modifiers,
    {
        KeyBinding { key, modifiers }
    }

    /// Parse a textual key description such as `ctrl-shift-p`.
    pub fn from_string(key_str: &str) -> (r: Result<KeyBinding, KeyParseError>)
        ensures
            match r {
                Ok(b) => binding_of(key_str@) == Some(b),
                Err(_) => binding_of(key_str@) is None,
            },
    {
        let parts = split_on(key_str, '-');
        let ghost vs = views_of(parts@);
        proof {
            lemma_split_nonempty(key_str@, '-');
        }
        let n = parts.len();
        let mut m = Modifiers::none();
        let mut i: usize = 0;
        proof {
            assert(vs.take(0) =~= Seq::<Seq<char>>::empty());
        }
        while i < n - 1
            invariant
                vs == views_of(parts@),
                vs == split_sep(key_str@, '-'),
                n == vs.len(),
                n >= 1,
                0 <= i <= n - 1,
                modifiers_of(
                    vs.take(n - 1).take(i as int),
                    Modifiers { ctrl: false, alt: false, shift: false },
                ) == Some(m),
            decreases n - 1 - i,
        {
            let part = &parts[i];
            let next = if str_eq_ci(part.as_str(), "ctrl") || str_eq_ci(part.as_str(), "cmd") {
                Some(Modifiers { ctrl: true, ..m })
            } else if str_eq_ci(part.as_str(), "alt") || str_eq_ci(part.as_str(), "meta") {
                Some(Modifiers { alt: true, ..m })
            } else if str_eq_ci(part.as_str(), "shift") {
                Some(Modifiers { shift: true, ..m })
            } else {
                None
            };
            proof {
                assert(modifier_of_name(lower_seq(vs[i as int]), m) == next);
                lemma_modifiers_prefix(
                    vs.take(n - 1),
                    Modifiers { ctrl: false, alt: false, shift: false },
                    i as int,
                );
            }
            match next {
                Some(nm) => {
                    m = nm;
                    proof {
                        let ghost prefix = vs.take(n - 1);
                        assert(prefix.take(i + 1).drop_last() =~= prefix.take(i as int));
                        assert(prefix.take(i + 1).last() == vs[i as int]);
                        lemma_modifiers_snoc(
                            prefix.take(i + 1),
                            Modifiers { ctrl: false, alt: false, shift: false },
                        );
                    }
                },
                None => {
                    proof {
                        lemma_modifiers_none(
                            vs.take(n - 1),
                            Modifiers { ctrl: false, alt: false, shift: false },
                            i as int,
                        );
                    }
                    return Err(KeyParseError);
                },
            }
            i = i + 1;
        }
        proof {
            assert(vs.take(n - 1).take(n - 1) =~= vs.take(n - 1));
        }
        let key_part = &parts[n - 1];
        match key_from_name(key_part.as_str()) {
            Some(key) => Ok(KeyBinding { key, modifiers: m }),
            None => Err(KeyParseError),
        }
    }

    /// Whether an incoming key event matches this binding exactly.
    pub fn matches(&self, key: Key, modifiers: Modifiers) -> (r: bool)
        ensures
            r == (self.key == key && self.modifiers == modifiers),
    {
        self.key == key && self.modifiers == modifiers
    }
}

/// The textual name of a key, as `key_binding_to_string` writes it.
pub open spec fn key_name_of(k: Key) -> Seq<char> {
    match k {
        Key::Enter => "enter"@,
        Key::Esc => "escape"@,
        Key::Tab => "tab"@,
        Key::Backspace => "backspace"@,
        Key::Delete => "delete"@,
        Key::Up => "up"@,
        Key::Down => "down"@,
        Key::Left => "left"@,
        Key::Right => "right"@,
        Key::Home => "home"@,
        Key::End => "end"@,
        Key::PageUp => "pageup"@,
        Key::PageDown => "pagedown"@,
        Key::Function(n) => "f"@ + crate::text::dec_str(n as int),
        Key::Character(c) => {
            if c == ' ' {
                "space"@
            } else if c == '`' {
                "grave"@
            } else if c == '/' {
                "slash"@
            } else if c == ',' {
                "comma"@
            } else if c == '.' {
                "period"@
            } else {
                seq![c]
            }
        },
    }
}

/// The textual form of a binding: the held modifiers, in the order
/// `ctrl`, `alt`, `shift`, then the key name, joined with `-`.
pub open spec fn binding_string_of(b: KeyBinding) -> Seq<char> {
    (if b.modifiers.ctrl {
        "ctrl-"@
    } else {
        Seq::<char>::empty()
    }) + (if b.modifiers.alt {
        "alt-"@
    } else {
        Seq::<char>::empty()
    }) + (if b.modifiers.shift {
        "shift-"@
    } else {
        Seq::<char>::empty()
    }) + key_name_of(b.key)
}

/// Write a binding back as a textual description.
pub fn key_binding_to_string(key_binding: &KeyBinding) -> (r: String)
    ensures
        r@ == binding_string_of(*key_binding),
{
    let mut s = String::new();
    if key_binding.modifiers.ctrl {
        s.append("ctrl-");
    }
    if key_binding.modifiers.alt {
        s.append("alt-");
    }
    if key_binding.modifiers.shift {
        s.append("shift-");
    }
    proof {
        assert(s@ =~= (if key_binding.modifiers.ctrl {
            "ctrl-"@
        } else {
            Seq::<char>::empty()
        }) + (if key_binding.modifiers.alt {
            "alt-"@
        } else {
            Seq::<char>::empty()
        }) + (if key_binding.modifiers.shift {
            "shift-"@
        } else {
            Seq::<char>::empty()
        }));
    }
    let name: String = match &key_binding.key {
        Key::Enter => String::from_str("enter"),
        Key::Esc => String::from_str("escape"),
        Key::Tab => String::from_str("tab"),
        Key::Backspace => String::from_str("backspace"),
        Key::Delete => String::from_str("delete"),
        Key::Up => String::from_str("up"),
        Key::Down => String::from_str("down"),
        Key::Left => String::from_str("left"),
        Key::Right => String::from_str("right"),
        Key::Home => String::from_str("home"),
        Key::End => String::from_str("end"),
        Key::PageUp => String::from_str("pageup"),
        Key::PageDown => String::from_str("pagedown"),
        Key::Function(n) => {
            let mut f = String::from_str("f");
            let digits = crate::text::u64_to_string(*n as u64);
            f.append(digits.as_str());
            f
        },
        Key::Character(c) => {
            if *c == ' ' {
                String::from_str("space")
            } else if *c == '`' {
                String::from_str("grave")
            } else if *c == '/' {
                String::from_str("slash")
            } else if *c == ',' {
                String::from_str("comma")
            } else if *c == '.' {
                String::from_str("period")
            } else {
                crate::text::char_to_string(*c)
            }
        },
    };
    s.append(name.as_str());
    s
}

/// The first position of the binding for `command`, or `-1`.
pub open spec fn command_index(bs: Seq<(String, KeyBinding)>, command: Seq<char>) -> int
    decreases bs.len(),
{
    if bs.len() == 0 {
        -1
    } else if bs[0].0@ == command {
        0
    } else {
        let r = command_index(bs.drop_first(), command);
        if r < 0 {
            -1
        } else {
            1 + r
        }
    }
}

/// The first position of a binding equal to `kb`, or `-1`.
pub open spec fn key_index(bs: Seq<(String, KeyBinding)>, kb: KeyBinding) -> int
    decreases bs.len(),
{
    if bs.len() == 0 {
        -1
    } else if bs[0].1 == kb {
        0
    } else {
        let r = key_index(bs.drop_first(), kb);
        if r < 0 {
            -1
        } else {
            1 + r
        }
    }
}

/// `bs` with `(command, b)` installed: replacing the binding of the same
/// command when there is one, appended otherwise.
pub open spec fn replace_or_push(
    bs: Seq<(String, KeyBinding)>,
    command: String,
    b: KeyBinding,
) -> Seq<(String, KeyBinding)> {
    let i = command_index(bs, command@);
    if i >= 0 {
        bs.update(i, (command, b))
    } else {
        bs.push((command, b))
    }
}

/// `acc` after reading a keyset: each entry whose key description parses
/// is installed under its command, unparsable entries are skipped.
pub open spec fn load_fold(
    acc: Seq<(String, KeyBinding)>,
    entries: Seq<(String, String)>,
) -> Seq<(String, KeyBinding)>
    decreases entries.len(),
{
    if entries.len() == 0 {
        acc
    } else {
        match binding_of(entries[0].1@) {
            Some(b) => load_fold(replace_or_push(acc, entries[0].0, b), entries.drop_first()),
            None => load_fold(acc, entries.drop_first()),
        }
    }
}

/// The category of a command: the text before the first `:`, or
/// `general` when there is none.
pub open spec fn category_of(command: Seq<char>) -> Seq<char> {
    if contains_seq(command, ":"@) {
        command.take(first_colon(command))
    } else {
        "general"@
    }
}

/// The position of the first `:` in `s`.
pub open spec fn first_colon(s: Seq<char>) -> int
    decreases s.len(),
{
    if s.len() == 0 {
        0
    } else if s[0] == ':' {
        0
    } else {
        1 + first_colon(s.drop_first())
    }
}

/// Keeps the command-key table, the keyset directories and the name of
/// the loaded keyset.
#[derive(Debug)]
pub struct KeyBindingManager {
    pub bindings: Vec<(String, KeyBinding)>,
    pub keyset_directories: Vec<String>,
    pub current_keyset: Option<String>,
}

impl KeyBindingManager {
    /// A manager with no bindings and the two built-in directories.
    pub fn new() -> (r: Self)
        ensures
            r.bindings@.len() == 0,
            views_of(r.keyset_directories@) == seq!["keysets"@, "~/.agentic/keysets"@],
            r.current_keyset is None,
    {
        let mut dirs: Vec<String> = Vec::new();
        dirs.push(String::from_str("keysets"));
        dirs.push(String::from_str("~/.agentic/keysets"));
        proof {
            assert(views_of(dirs@) =~= seq!["keysets"@, "~/.agentic/keysets"@]);
        }
        KeyBindingManager { bindings: Vec::new(), keyset_directories: dirs, current_keyset: None }
    }

    /// Remember one more directory to look keysets up in.
    pub fn add_keyset_directory(&mut self, path: &str)
        ensures
            views_of(final(self).keyset_directories@) == views_of(
                old(self).keyset_directories@,
            ).push(path@),
            final(self).bindings == old(self).bindings,
            final(self).current_keyset == old(self).current_keyset,
    {
        self.keyset_directories.push(String::from_str(path));
        proof {
            assert(views_of(self.keyset_directories@) =~= views_of(
                old(self).keyset_directories@,
            ).push(path@));
        }
    }

    /// Replace the table with the parsed keyset `entries` (command paired
    /// with key description); entries whose description does not parse
    /// are skipped, and the keyset name becomes current.
    pub fn load_keyset(&mut self, keyset_name: &str, entries: Vec<(String, String)>)
        ensures
            final(self).bindings@ == load_fold(Seq::<(String, KeyBinding)>::empty(), entries@),
            final(self).keyset_directories == old(self).keyset_directories,
            final(self).current_keyset matches Some(n) && n@ == keyset_name@,
    {
        self.bindings.clear();
        let ghost all = entries@;
        let mut rest = entries;
        while rest.len() > 0
            invariant
                load_fold(Seq::<(String, KeyBinding)>::empty(), all) == load_fold(
                    self.bindings@,
                    rest@,
                ),
                self.keyset_directories == old(self).keyset_directories,
            decreases rest@.len(),
        {
            let ghost before = rest@;
            let entry = rest.remove(0);
            proof {
                assert(rest@ =~= before.drop_first());
            }
            match KeyBinding::from_string(entry.1.as_str()) {
                Ok(b) => {
                    self.install_binding(entry.0, b);
                },
                Err(_) => {},
            }
        }
        self.current_keyset = Some(String::from_str(keyset_name));
    }

    /// Install one binding, replacing the binding of the same command.
    fn install_binding(&mut self, command: String, b: KeyBinding)
        ensures
            final(self).bindings@ == replace_or_push(old(self).bindings@, command, b),
            final(self).keyset_directories == old(self).keyset_directories,
            final(self).current_keyset == old(self).current_keyset,
    {
        match find_command(&self.bindings, command.as_str()) {
            Some(i) => {
                self.bindings.set(i, (command, b));
            },
            None => {
                self.bindings.push((command, b));
            },
        }
    }

    /// The command bound to an incoming key event, if any; with several
    /// commands on the same key the earliest wins.
    pub fn get_command_for_key(&self, key: Key, modifiers: Modifiers) -> (r: Option<&String>)
        ensures
            match r {
                Some(c) => key_index(self.bindings@, KeyBinding { key, modifiers }) >= 0 && *c
                    == self.bindings@[key_index(
                    self.bindings@,
                    KeyBinding { key, modifiers },
                )].0,
                None => key_index(self.bindings@, KeyBinding { key, modifiers }) == -1,
            },
    {
        let kb = KeyBinding { key, modifiers };
        let mut i: usize = 0;
        while i < self.bindings.len()
            invariant
                kb == (KeyBinding { key, modifiers }),
                0 <= i <= self.bindings@.len(),
                forall|k: int| 0 <= k < i ==> (#[trigger] self.bindings@[k]).1 != kb,
            decreases self.bindings@.len() - i,
        {
            let candidate = self.bindings[i].1;
            if candidate == kb {
                proof {
                    lemma_key_index(self.bindings@, kb, i as int);
                }
                return Some(&self.bindings[i].0);
            }
            i = i + 1;
        }
        proof {
            lemma_key_index(self.bindings@, kb, self.bindings@.len() as int);
        }
        None
    }

    /// The key bound to `command`, if any.
    pub fn get_key_for_command(&self, command: &str) -> (r: Option<&KeyBinding>)
        ensures
            match r {
                Some(b) => command_index(self.bindings@, command@) >= 0 && *b
                    == self.bindings@[command_index(self.bindings@, command@)].1,
                None => command_index(self.bindings@, command@) == -1,
            },
    {
        match find_command(&self.bindings, command) {
            Some(i) => Some(&self.bindings[i].1),
            None => None,
        }
    }

    /// Bind `command` to `key_binding`, removing any binding of the same
    /// command and any other command on the same key first.
    pub fn add_binding(&mut self, command: String, key_binding: KeyBinding)
        ensures
            final(self).bindings@ == old(self).bindings@.filter(
                |e: (String, KeyBinding)| e.0@ != command@ && e.1 != key_binding,
            ).push((command, key_binding)),
            final(self).keyset_directories == old(self).keyset_directories,
            final(self).current_keyset == old(self).current_keyset,
    {
        let ghost vs = self.bindings@;
        let ghost pred = |e: (String, KeyBinding)| e.0@ != command@ && e.1 != key_binding;
        let mut kept: Vec<(String, KeyBinding)> = Vec::new();
        let mut i: usize = 0;
        proof {
            reveal(Seq::filter);
            assert(vs.take(0) =~= Seq::<(String, KeyBinding)>::empty());
            assert(kept@ =~= vs.take(0).filter(pred));
        }
        while i < self.bindings.len()
            invariant
                vs == self.bindings@,
                pred == (|e: (String, KeyBinding)| e.0@ != command@ && e.1 != key_binding),
                0 <= i <= vs.len(),
                kept@ == vs.take(i as int).filter(pred),
            decreases vs.len() - i,
        {
            proof {
                assert(vs.take(i + 1) =~= vs.take(i as int).push(vs[i as int]));
                vs.take(i as int).lemma_filter_push(vs[i as int], pred);
            }
            let entry = &self.bindings[i];
            if !str_eq(entry.0.as_str(), command.as_str()) && !entry.1.matches(
                key_binding.key,
                key_binding.modifiers,
            ) {
                kept.push((entry.0.clone(), entry.1));
                proof {
                    assert(kept@ =~= kept@.drop_last().push(vs[i as int]));
                }
            }
            i = i + 1;
        }
        proof {
            assert(vs.take(vs.len() as int) =~= vs);
        }
        kept.push((command, key_binding));
        self.bindings = kept;
    }

    /// Forget the binding of `command`.
    pub fn remove_binding(&mut self, command: &str)
        ensures
            final(self).bindings@ == old(self).bindings@.filter(
                |e: (String, KeyBinding)| e.0@ != command@,
            ),
            final(self).keyset_directories == old(self).keyset_directories,
            final(self).current_keyset == old(self).current_keyset,
    {
        let ghost vs = self.bindings@;
        let ghost pred = |e: (String, KeyBinding)| e.0@ != command@;
        let mut kept: Vec<(String, KeyBinding)> = Vec::new();
        let mut i: usize = 0;
        proof {
            reveal(Seq::filter);
            assert(vs.take(0) =~= Seq::<(String, KeyBinding)>::empty());
            assert(kept@ =~= vs.take(0).filter(pred));
        }
        while i < self.bindings.len()
            invariant
                vs == self.bindings@,
                pred == (|e: (String, KeyBinding)| e.0@ != command@),
                0 <= i <= vs.len(),
                kept@ == vs.take(i as int).filter(pred),
            decreases vs.len() - i,
        {
            proof {
                assert(vs.take(i + 1) =~= vs.take(i as int).push(vs[i as int]));
                vs.take(i as int).lemma_filter_push(vs[i as int], pred);
            }
            let entry = &self.bindings[i];
            if !str_eq(entry.0.as_str(), command) {
                kept.push((entry.0.clone(), entry.1));
                proof {
                    assert(kept@ =~= kept@.drop_last().push(vs[i as int]));
                }
            }
            i = i + 1;
        }
        proof {
            assert(vs.take(vs.len() as int) =~= vs);
        }
        self.bindings = kept;
    }

    /// Every binding with its command, in table order.
    pub fn list_bindings(&self) -> (r: Vec<(&String, &KeyBinding)>)
        ensures
            r@.len() == self.bindings@.len(),
            forall|i: int|
                0 <= i < r@.len() ==> *((#[trigger] r@[i]).0) == self.bindings@[i].0 && *(
                r@[i].1) == self.bindings@[i].1,
    {
        let mut out: Vec<(&String, &KeyBinding)> = Vec::new();
        let mut i: usize = 0;
        while i < self.bindings.len()
            invariant
                0 <= i <= self.bindings@.len(),
                out@.len() == i,
                forall|k: int|
                    0 <= k < i ==> *((#[trigger] out@[k]).0) == self.bindings@[k].0 && *(
                    out@[k].1) == self.bindings@[k].1,
            decreases self.bindings@.len() - i,
        {
            let entry = &self.bindings[i];
            out.push((&entry.0, &entry.1));
            i = i + 1;
        }
        out
    }

    /// The bindings grouped by command category (the text before `:`, or
    /// `general`); a group's members all carry the group's category.
    pub fn get_bindings_by_category(&self) -> (r: Vec<(String, Vec<(&String, &KeyBinding)>)>)
        ensures
            forall|c: int|
                0 <= c < r@.len() ==> forall|i: int|
                    0 <= i < (#[trigger] r@[c]).1@.len() ==> category_of(
                        (*(#[trigger] r@[c].1@[i]).0)@,
                    ) == r@[c].0@,
    {
        let mut out: Vec<(String, Vec<(&String, &KeyBinding)>)> = Vec::new();
        let mut i: usize = 0;
        while i < self.bindings.len()
            invariant
                0 <= i <= self.bindings@.len(),
                forall|c: int|
                    0 <= c < out@.len() ==> forall|k: int|
                        0 <= k < (#[trigger] out@[c]).1@.len() ==> category_of(
                            (*(#[trigger] out@[c].1@[k]).0)@,
                        ) == out@[c].0@,
            decreases self.bindings@.len() - i,
        {
            let entry = &self.bindings[i];
            let category = category_string(entry.0.as_str());
            let mut idx: Option<usize> = None;
            let mut c: usize = 0;
            while c < out.len()
                invariant
                    0 <= c <= out@.len(),
                    match idx {
                        Some(ci) => ci < out@.len() && out@[ci as int].0@ == category@,
                        None => true,
                    },
                decreases out@.len() - c,
            {
                if str_eq(out[c].0.as_str(), category.as_str()) {
                    if idx.is_none() {
                        idx = Some(c);
                    }
                }
                c = c + 1;
            }
            let pair = (&entry.0, &entry.1);
            match idx {
                Some(ci) => {
                    let mut group = out.remove(ci);
                    group.1.push(pair);
                    out.insert(ci, group);
                },
                None => {
                    let mut group: Vec<(&String, &KeyBinding)> = Vec::new();
                    group.push(pair);
                    out.push((category, group));
                },
            }
            i = i + 1;
        }
        out
    }

    /// The bindings whose command contains `query`, ignoring ASCII case,
    /// exactly and in table order.
    pub fn search_bindings(&self, query: &str) -> (r: Vec<(&String, &KeyBinding)>)
        ensures
            r@.len() == self.bindings@.filter(
                |e: (String, KeyBinding)| contains_seq(lower_seq(e.0@), lower_seq(query@)),
            ).len(),
            forall|i: int|
                0 <= i < r@.len() ==> {
                    let kept = self.bindings@.filter(
                        |e: (String, KeyBinding)| contains_seq(
                            lower_seq(e.0@),
                            lower_seq(query@),
                        ),
                    );
                    *((#[trigger] r@[i]).0) == kept[i].0 && *(r@[i].1) == kept[i].1
                },
    {
        let ghost vs = self.bindings@;
        let ghost pred = |e: (String, KeyBinding)| contains_seq(
            lower_seq(e.0@),
            lower_seq(query@),
        );
        let mut out: Vec<(&String, &KeyBinding)> = Vec::new();
        let mut i: usize = 0;
        proof {
            reveal(Seq::filter);
            assert(vs.take(0) =~= Seq::<(String, KeyBinding)>::empty());
        }
        while i < self.bindings.len()
            invariant
                vs == self.bindings@,
                pred == (|e: (String, KeyBinding)| contains_seq(
                    lower_seq(e.0@),
                    lower_seq(query@),
                )),
                0 <= i <= vs.len(),
                out@.len() == vs.take(i as int).filter(pred).len(),
                forall|k: int|
                    0 <= k < out@.len() ==> *((#[trigger] out@[k]).0) == vs.take(
                        i as int,
                    ).filter(pred)[k].0 && *(out@[k].1) == vs.take(i as int).filter(pred)[k].1,
            decreases vs.len() - i,
        {
            proof {
                assert(vs.take(i + 1) =~= vs.take(i as int).push(vs[i as int]));
                vs.take(i as int).lemma_filter_push(vs[i as int], pred);
            }
            let entry = &self.bindings[i];
            if contains_ci(entry.0.as_str(), query) {
                out.push((&entry.0, &entry.1));
            }
            i = i + 1;
        }
        proof {
            assert(vs.take(vs.len() as int) =~= vs);
        }
        out
    }

    /// The table written back as command paired with key description,
    /// ready to be stored; writing the file is the caller's business.
    pub fn export_keyset(&self) -> (r: Vec<(String, String)>)
        ensures
            r@.len() == self.bindings@.len(),
            forall|i: int|
                0 <= i < r@.len() ==> (#[trigger] r@[i]).0@ == self.bindings@[i].0@ && r@[i].1@
                    == binding_string_of(self.bindings@[i].1),
    {
        let mut out: Vec<(String, String)> = Vec::new();
        let mut i: usize = 0;
        while i < self.bindings.len()
            invariant
                0 <= i <= self.bindings@.len(),
                out@.len() == i,
                forall|k: int|
                    0 <= k < i ==> (#[trigger] out@[k]).0@ == self.bindings@[k].0@ && out@[k].1@
                        == binding_string_of(self.bindings@[k].1),
            decreases self.bindings@.len() - i,
        {
            let entry = &self.bindings[i];
            let key_str = key_binding_to_string(&entry.1);
            out.push((entry.0.clone(), key_str));
            i = i + 1;
        }
        out
    }

    /// The name of the loaded keyset, if one was loaded.
    pub fn get_current_keyset(&self) -> (r: Option<&String>)
        ensures
            match r {
                Some(n) => self.current_keyset matches Some(c) && *n == c,
                None => self.current_keyset is None,
            },
    {
        self.current_keyset.as_ref()
    }

    /// Whether `command` has a binding.
    pub fn has_binding(&self, command: &str) -> (r: bool)
        ensures
            r == (command_index(self.bindings@, command@) >= 0),
    {
        match find_command(&self.bindings, command) {
            Some(_) => true,
            None => false,
        }
    }

    /// Whether a key description parses.
    pub fn validate_key_string(key_str: &str) -> (r: bool)
        ensures
            r == (binding_of(key_str@) is Some),
    {
        match KeyBinding::from_string(key_str) {
            Ok(_) => true,
            Err(_) => false,
        }
    }
}

/// The category of a command, as a string.
fn category_string(command: &str) -> (r: String)
    ensures
        r@ == category_of(command@),
{
    proof {
        reveal_strlit(":");
    }
    match crate::text::find_str(command, ":") {
        Some(i) => {
            proof {
                assert(":"@ =~= seq![':']);
                assert(":"@.len() == 1);
                assert(command@.subrange(i as int, i + 1) == ":"@);
                assert(command@[i as int] == command@.subrange(i as int, i + 1)[0]);
                assert(command@[i as int] == ':');
                lemma_first_colon(command@, i as int);
                assert(command@.subrange(0, i as int) =~= command@.take(i as int));
            }
            let piece = command.substring_char(0, i);
            String::from_str(piece)
        },
        None => {
            proof {
                assert(!contains_seq(command@, ":"@));
            }
            String::from_str("general")
        },
    }
}

proof fn lemma_first_colon(s: Seq<char>, i: int)
    requires
        0 <= i < s.len(),
        s[i] == ':',
        forall|k: int| 0 <= k < i ==> !crate::text::occurs_at(s, seq![':'], k),
    ensures
        first_colon(s) == i,
    decreases i,
{
    if i == 0 {
    } else {
        assert(!crate::text::occurs_at(s, seq![':'], 0));
        assert(s.subrange(0, 1) =~= seq![s[0]]);
        assert(s[0] != ':');
        assert forall|k: int|
            0 <= k < i - 1 implies !crate::text::occurs_at(s.drop_first(), seq![':'], k) by {
            if crate::text::occurs_at(s.drop_first(), seq![':'], k) {
                assert(s.subrange(k + 1, k + 2) =~= s.drop_first().subrange(k, k + 1));
                assert(crate::text::occurs_at(s, seq![':'], k + 1));
            }
        }
        assert(s.drop_first()[i - 1] == ':');
        lemma_first_colon(s.drop_first(), i - 1);
    }
}

proof fn lemma_key_index(bs: Seq<(String, KeyBinding)>, kb: KeyBinding, i: int)
    requires
        0 <= i <= bs.len(),
        forall|k: int| 0 <= k < i ==> (#[trigger] bs[k]).1 != kb,
        i < bs.len() ==> bs[i].1 == kb,
    ensures
        i < bs.len() ==> key_index(bs, kb) == i,
        i == bs.len() ==> key_index(bs, kb) == -1,
    decreases i + 1, bs.len(),
{
    if bs.len() == 0 {
    } else if i == 0 {
        if bs[0].1 != kb {
            lemma_key_index(bs.drop_first(), kb, 0);
        }
    } else {
        lemma_key_index(bs.drop_first(), kb, i - 1);
    }
}

proof fn lemma_command_index(bs: Seq<(String, KeyBinding)>, command: Seq<char>, i: int)
    requires
        0 <= i <= bs.len(),
        forall|k: int| 0 <= k < i ==> (#[trigger] bs[k]).0@ != command,
        i < bs.len() ==> bs[i].0@ == command,
    ensures
        i < bs.len() ==> command_index(bs, command) == i,
        i == bs.len() ==> command_index(bs, command) == -1,
    decreases i + 1, bs.len(),
{
    if bs.len() == 0 {
    } else if i == 0 {
        if bs[0].0@ != command {
            lemma_command_index(bs.drop_first(), command, 0);
        }
    } else {
        lemma_command_index(bs.drop_first(), command, i - 1);
    }
}

/// Finds the first binding of `command`.
fn find_command(bs: &Vec<(String, KeyBinding)>, command: &str) -> (r: Option<usize>)
    ensures
        match r {
            Some(i) => command_index(bs@, command@) == i as int && i < bs@.len(),
            None => command_index(bs@, command@) == -1,
        },
{
    let mut i: usize = 0;
    while i < bs.len()
        invariant
            0 <= i <= bs@.len(),
            forall|k: int| 0 <= k < i ==> (#[trigger] bs@[k]).0@ != command@,
        decreases bs@.len() - i,
    {
        if str_eq(bs[i].0.as_str(), command) {
            proof {
                lemma_command_index(bs@, command@, i as int);
            }
            return Some(i);
        }
        i = i + 1;
    }
    proof {
        lemma_command_index(bs@, command@, bs@.len() as int);
    }
    None
}

proof fn lemma_modifiers_prefix(parts: Seq<Seq<char>>, m0: Modifiers, i: int)
    requires
        0 <= i <= parts.len(),
    ensures
        modifiers_of(parts, m0) == match modifiers_of(parts.take(i), m0) {
            Some(mi) => modifiers_of(parts.skip(i), mi),
            None => None::<Modifiers>,
        },
    decreases i,
{
    if i == 0 {
        assert(parts.take(0) =~= Seq::<Seq<char>>::empty());
        assert(parts.skip(0) =~= parts);
    } else {
        lemma_modifiers_prefix(parts, m0, i - 1);
        let before = parts.take(i - 1);
        match modifiers_of(before, m0) {
            Some(mi) => {
                assert(parts.skip(i - 1)[0] == parts[i - 1]);
                assert(parts.skip(i - 1).drop_first() =~= parts.skip(i));
                assert(parts.take(i).drop_last() =~= before);
                assert(parts.take(i).last() == parts[i - 1]);
                lemma_modifiers_snoc(parts.take(i), m0);
            },
            None => {
                assert(parts.take(i).drop_last() =~= before);
                lemma_modifiers_snoc(parts.take(i), m0);
            },
        }
    }
}

proof fn lemma_modifiers_snoc(parts: Seq<Seq<char>>, m0: Modifiers)
    requires
        parts.len() >= 1,
    ensures
        modifiers_of(parts, m0) == match modifiers_of(parts.drop_last(), m0) {
            Some(mi) => modifier_of_name(lower_seq(parts.last()), mi),
            None => None::<Modifiers>,
        },
    decreases parts.len(),
{
    if parts.len() == 1 {
        assert(parts.drop_last() =~= Seq::<Seq<char>>::empty());
        assert(parts.drop_first() =~= Seq::<Seq<char>>::empty());
        assert(parts[0] == parts.last());
        assert(modifiers_of(parts.drop_last(), m0) == Some(m0));
        match modifier_of_name(lower_seq(parts[0]), m0) {
            Some(next) => {
                assert(modifiers_of(parts.drop_first(), next) == Some(next));
                assert(modifiers_of(parts, m0) == Some(next));
            },
            None => {
                assert(modifiers_of(parts, m0) is None);
            },
        }
    } else {
        assert(parts.drop_first().drop_last() =~= parts.drop_last().drop_first());
        assert(parts.drop_first().last() == parts.last());
        assert(parts.drop_last()[0] == parts[0]);
        match modifier_of_name(lower_seq(parts[0]), m0) {
            Some(next) => {
                lemma_modifiers_snoc(parts.drop_first(), next);
                assert(modifiers_of(parts, m0) == modifiers_of(parts.drop_first(), next));
                assert(modifiers_of(parts.drop_last(), m0) == modifiers_of(
                    parts.drop_last().drop_first(),
                    next,
                ));
            },
            None => {
                assert(modifiers_of(parts, m0) is None);
                assert(modifiers_of(parts.drop_last(), m0) is None);
            },
        }
    }
}

proof fn lemma_modifiers_none(parts: Seq<Seq<char>>, m0: Modifiers, i: int)
    requires
        0 <= i < parts.len(),
        modifiers_of(parts.take(i), m0) is Some,
        modifier_of_name(lower_seq(parts[i]), modifiers_of(parts.take(i), m0)->Some_0)
            is None,
    ensures
        modifiers_of(parts, m0) is None,
{
    lemma_modifiers_prefix(parts, m0, i);
    assert(parts.skip(i)[0] == parts[i]);
}

} // verus!

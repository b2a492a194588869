//! RPM macros: configuration parameters kept in a named context.
//!
//! A macro definition takes the form `<name>[(opts)] <body>`: everything
//! before the first space names the macro, everything after it is the
//! body.  The native engine receives definitions as C strings, so a
//! string with an interior NUL byte can never reach it and is refused up
//! front.

use vstd::prelude::*;
use vstd::string::StrSliceExecFns;
use crate::error::{Error, ErrorKind};

verus! {

/// The position of the first space at or after `i`, or the length when
/// there is none.
pub open spec fn first_space_from(s: Seq<char>, i: int) -> int
    decreases s.len() - i,
{
    if i < 0 || i >= s.len() {
        s.len() as int
    } else if s[i] == ' ' {
        i
    } else {
        first_space_from(s, i + 1)
    }
}

/// The position of the first space, or the length when there is none.
pub open spec fn first_space(s: Seq<char>) -> int {
    first_space_from(s, 0)
}

/// The first space is within bounds.
pub proof fn lemma_first_space_bounds(s: Seq<char>, i: int)
    requires
        0 <= i <= s.len(),
    ensures
        i <= first_space_from(s, i) <= s.len(),
    decreases s.len() - i,
{
    if i < s.len() && s[i] != ' ' {
        lemma_first_space_bounds(s, i + 1);
    }
}

/// The macro name: everything before the first space.
pub open spec fn macro_name_of(s: Seq<char>) -> Seq<char> {
    s.subrange(0, first_space(s))
}

/// The macro body: everything after the first space, or empty when there
/// is no space.
pub open spec fn macro_body_of(s: Seq<char>) -> Seq<char> {
    if first_space(s) < s.len() {
        s.subrange(first_space(s) + 1, s.len() as int)
    } else {
        Seq::empty()
    }
}

/// Whether the characters contain a NUL, which no C string can carry.
pub open spec fn has_nul(s: Seq<char>) -> bool {
    exists|i: int| 0 <= i < s.len() && s[i] == '\0'
}

/// The context's definitions with the most recent definition of `name`
/// removed; unchanged when `name` is not defined.
pub open spec fn remove_last_def(s: Seq<(Seq<char>, Seq<char>)>, name: Seq<char>) -> Seq<
    (Seq<char>, Seq<char>),
>
    decreases s.len(),
{
    if s.len() == 0 {
        s
    } else if s.last().0 == name {
        s.drop_last()
    } else {
        remove_last_def(s.drop_last(), name).push(s.last())
    }
}

/// Find the position of the first space, scanning left to right.
fn find_first_space(s: &str) -> (i: usize)
    ensures
        i == first_space(s@),
        i <= s@.len(),
{
    let n = s.unicode_len();
    let mut i: usize = 0;
    while i < n
        invariant
            n == s@.len(),
            i <= n,
            first_space(s@) == first_space_from(s@, i as int),
        decreases n - i,
    {
        if s.get_char(i) == ' ' {
            return i;
        }
        i = i + 1;
    }
    n
}

/// Whether the string contains a NUL character.
pub(crate) fn contains_nul(s: &str) -> (b: bool)
    ensures
        b == has_nul(s@),
{
    let n = s.unicode_len();
    let mut i: usize = 0;
    while i < n
        invariant
            n == s@.len(),
            i <= n,
            forall|j: int| 0 <= j < i ==> s@[j] != '\0',
        decreases n - i,
    {
        if s.get_char(i) == '\0' {
            return true;
        }
        i = i + 1;
    }
    false
}

/// A scope in which macros are defined: the tracked model of the engine's
/// global macro context.
pub struct MacroContext {
    macros: Vec<(String, String)>,
}

impl MacroContext {
    /// The definitions held, oldest first: each a name and a body.
    pub closed spec fn spec_macros(self) -> Seq<(Seq<char>, Seq<char>)> {
        self.macros@.map_values(|p: (String, String)| (p.0@, p.1@))
    }

    /// An empty context.
    pub fn new() -> (c: MacroContext)
        ensures
            c.spec_macros().len() == 0,
    {
        MacroContext { macros: Vec::new() }
    }

    /// Whether `name` is currently defined.
    pub fn is_defined(&self, name: &str) -> (b: bool)
        ensures
            b == exists|i: int|
                0 <= i < self.spec_macros().len() && (#[trigger] self.spec_macros()[i]).0
                    == name@,
    {
        let n = self.macros.len();
        let mut i: usize = 0;
        while i < n
            invariant
                n == self.macros@.len(),
                i <= n,
                forall|j: int| 0 <= j < i ==> (#[trigger] self.spec_macros()[j]).0 != name@,
            decreases n - i,
        {
            if crate::package::str_eq(self.macros[i].0.as_str(), name) {
                proof {
                    assert(self.spec_macros()[i as int].0 == name@);
                }
                return true;
            }
            i = i + 1;
        }
        false
    }

    /// Define a macro in this context.
    ///
    /// Macros take the form `<name>[(opts)] <body>`; `level` is the
    /// macro recursion level the native call receives (0 is the entry
    /// API) and does not affect what is recorded here.  A string with an
    /// interior NUL cannot become a C string and is refused.
    pub fn define(&mut self, macro_string: &str, level: i32) -> (r: Result<(), Error>)
        ensures
            r is Ok <==> !has_nul(macro_string@),
            r is Ok ==> final(self).spec_macros() == old(self).spec_macros().push(
                (macro_name_of(macro_string@), macro_body_of(macro_string@)),
            ),
            r is Err ==> *final(self) == *old(self),
            r matches Err(e) ==> e.spec_kind() == ErrorKind::Config,
    {
        if contains_nul(macro_string) {
            return Err(Error::new(ErrorKind::Config, None));
        }
        proof {
            lemma_first_space_bounds(macro_string@, 0);
        }
        let n = macro_string.unicode_len();
        let sp = find_first_space(macro_string);
        let name = macro_string.substring_char(0, sp).to_owned();
        let body = if sp < n {
            macro_string.substring_char(sp + 1, n).to_owned()
        } else {
            String::new()
        };
        let ghost before = self.spec_macros();
        self.macros.push((name, body));
        proof {
            assert(self.spec_macros() =~= before.push(
                (macro_name_of(macro_string@), macro_body_of(macro_string@)),
            ));
        }
        Ok(())
    }

    /// Delete the most recent definition of `name` from this context; a
    /// name never defined leaves the context as it is.
    ///
    /// The native deletion call takes the name as a C string, so a name
    /// with an interior NUL cannot be handed to it at all.
    pub fn delete(&mut self, name: &str) -> (r: Result<(), Error>)
        requires
            !has_nul(name@),
        ensures
            r is Ok,
            final(self).spec_macros() == remove_last_def(old(self).spec_macros(), name@),
    {
        let ghost s0 = self.spec_macros();
        let n = self.macros.len();
        let mut i: usize = n;
        while i > 0
            invariant
                n == self.macros@.len(),
                i <= n,
                self.spec_macros() == s0,
                old(self).spec_macros() == s0,
                forall|j: int| i <= j < n ==> (#[trigger] s0[j]).0 != name@,
            decreases i,
        {
            if crate::package::str_eq(self.macros[i - 1].0.as_str(), name) {
                proof {
                    assert(s0[i - 1].0 == name@);
                    lemma_remove_last_def_split(s0, name@, i as int);
                }
                self.macros.remove(i - 1);
                proof {
                    assert(self.spec_macros() =~= s0.subrange(0, i - 1) + s0.subrange(
                        i as int,
                        n as int,
                    ));
                    assert(s0.subrange(0, i as int).drop_last() =~= s0.subrange(0, i - 1));
                    assert(s0.subrange(0, i as int).last() == s0[i - 1]);
                    assert(remove_last_def(s0.subrange(0, i as int), name@) == s0.subrange(
                        0,
                        i - 1,
                    ));
                    assert(remove_last_def(s0, name@) =~= s0.subrange(0, i - 1) + s0.subrange(
                        i as int,
                        n as int,
                    ));
                    assert(self.spec_macros() =~= remove_last_def(s0, name@));
                }
                return Ok(());
            }
            i = i - 1;
        }
        proof {
            lemma_remove_last_def_split(s0, name@, 0);
            assert(s0.subrange(0, 0) =~= Seq::<(Seq<char>, Seq<char>)>::empty());
            assert(s0.subrange(0, n as int) =~= s0);
            assert(Seq::<(Seq<char>, Seq<char>)>::empty() + s0 =~= s0);
        }
        Ok(())
    }

    /// Delete the most recent definition of `name` from this context.
    /// The newer engines call this popping; it removes one definition,
    /// exactly as `delete` does.
    pub fn pop(&mut self, name: &str) -> (r: Result<(), Error>)
        requires
            !has_nul(name@),
        ensures
            r is Ok,
            final(self).spec_macros() == remove_last_def(old(self).spec_macros(), name@),
    {
        self.delete(name)
    }
}

impl Default for MacroContext {
    /// The default context: empty, standing for the engine's global one.
    fn default() -> (c: MacroContext)
        ensures
            c.spec_macros().len() == 0,
    {
        MacroContext::new()
    }
}

/// When nothing at or after position `i` is a definition of `name`,
/// removal only touches the prefix before `i`.
proof fn lemma_remove_last_def_split(s: Seq<(Seq<char>, Seq<char>)>, name: Seq<char>, i: int)
    requires
        0 <= i <= s.len(),
        forall|j: int| i <= j < s.len() ==> (#[trigger] s[j]).0 != name,
    ensures
        remove_last_def(s, name) == remove_last_def(s.subrange(0, i), name) + s.subrange(
            i,
            s.len() as int,
        ),
    decreases s.len() - i,
{
    if i == s.len() {
        assert(s.subrange(0, i) =~= s);
        assert(s.subrange(i, s.len() as int) =~= Seq::<(Seq<char>, Seq<char>)>::empty());
        assert(remove_last_def(s, name) + Seq::<(Seq<char>, Seq<char>)>::empty()
            =~= remove_last_def(s, name));
    } else {
        // Peel the last element, which is no definition of `name`.
        assert(s.last().0 != name);
        let t = s.drop_last();
        assert(forall|j: int| i <= j < t.len() ==> (#[trigger] t[j]).0 != name);
        lemma_remove_last_def_split(t, name, i);
        assert(t.subrange(0, i) =~= s.subrange(0, i));
        assert(remove_last_def(s, name) == remove_last_def(t, name).push(s.last()));
        assert(remove_last_def(t, name).push(s.last()) =~= remove_last_def(t, name) + seq![
            s.last(),
        ]);
        assert(t.subrange(i, t.len() as int) + seq![s.last()] =~= s.subrange(i, s.len() as int));
        assert(remove_last_def(s.subrange(0, i), name) + t.subrange(i, t.len() as int) + seq![
            s.last(),
        ] =~= remove_last_def(s.subrange(0, i), name) + s.subrange(i, s.len() as int));
    }
}

} // verus!

//! Support for configuring RPM, i.e. reading configuration files.
//!
//! Configuration is global to the process and may run at most once: the
//! native read vicariously initializes the crypto subsystem, which
//! corrupts state when initialized twice.  The native shell performs the
//! file-system checks and the native call, and hands their verdicts to
//! the decision logic here.

use vstd::prelude::*;
use vstd::string::StringExecFns;
use crate::error::{Error, ErrorKind};
use crate::internal::global_state::{configure_spec, GlobalState};
use crate::macro_context::{has_nul, macro_body_of, macro_name_of, MacroContext};

verus! {

/// Whether the proposed configuration path is acceptable: no interior
/// NUL (it must become a C string), and the file must exist.  No path at
/// all selects the default configuration and is always acceptable.
pub open spec fn config_path_ok(config_file: Option<Seq<char>>, file_exists: bool) -> bool {
    match config_file {
        Some(p) => !has_nul(p) && file_exists,
        None => true,
    }
}

/// Read RPM configuration (a.k.a. rpmrc).
///
/// If no path is passed, the default configuration is used.
/// `file_exists` is the shell's verdict on the proposed path and `rc`
/// the native read's return code; a process already configured rejects
/// the attempt without touching either.  Only a successful read marks
/// the process configured, so a failed attempt may be retried with a
/// different path.
pub fn read_file(
    state: &mut GlobalState,
    config_file: Option<&str>,
    file_exists: bool,
    rc: i32,
) -> (r: Result<(), Error>)
    ensures
        final(state).spec_ts() == old(state).spec_ts(),
        final(state).spec_leased() == old(state).spec_leased(),
        old(state).spec_configured() ==> configure_spec(*old(state), rc, *final(state), r),
        (!old(state).spec_configured() && !config_path_ok(
            match config_file {
                Some(p) => Some(p@),
                None => None::<Seq<char>>,
            },
            file_exists,
        )) ==> !final(state).spec_configured() && (r matches Err(e) && e.spec_kind()
            == ErrorKind::Config),
        (!old(state).spec_configured() && config_path_ok(
            match config_file {
                Some(p) => Some(p@),
                None => None::<Seq<char>>,
            },
            file_exists,
        )) ==> configure_spec(*old(state), rc, *final(state), r),
{
    if state.is_configured() {
        // Let the state itself reject the second attempt, whatever the
        // native verdict would have been.
        return state.configure(rc);
    }
    match config_file {
        Some(path) => {
            if crate::macro_context::contains_nul(path) {
                return Err(Error::new(ErrorKind::Config, None));
            }
            if !file_exists {
                return Err(Error::new(ErrorKind::Config, None));
            }
        },
        None => {},
    }
    state.configure(rc)
}

/// Set the path to the global RPM database, by defining the well-known
/// `_dbpath` macro in the given context.
pub fn set_db_path(ctx: &mut MacroContext, path: &str) -> (r: Result<(), Error>)
    ensures
        r is Ok <==> !has_nul(path@),
        r is Ok ==> final(ctx).spec_macros() == old(ctx).spec_macros().push(
            ("_dbpath"@, path@),
        ),
        r is Err ==> *final(ctx) == *old(ctx),
        r matches Err(e) ==> e.spec_kind() == ErrorKind::Config,
{
    proof {
        reveal_strlit("_dbpath ");
        reveal_strlit("_dbpath");
    }
    let mut m = String::from_str("_dbpath ");
    m.append(path);
    let ghost s = m@;
    proof {
        assert(s.len() == 8 + path@.len());
        assert forall|j: int| 0 <= j < 8 implies s[j] == "_dbpath "@[j] by {}
        assert forall|j: int| 8 <= j < s.len() implies s[j] == path@[j - 8] by {}
        assert(s[0] != ' ');
        assert(s[1] != ' ');
        assert(s[2] != ' ');
        assert(s[3] != ' ');
        assert(s[4] != ' ');
        assert(s[5] != ' ');
        assert(s[6] != ' ');
        assert(s[7] == ' ');
        assert(crate::macro_context::first_space(s) == 7) by {
            assert(crate::macro_context::first_space_from(s, 7) == 7);
            assert(crate::macro_context::first_space_from(s, 6) == 7);
            assert(crate::macro_context::first_space_from(s, 5) == 7);
            assert(crate::macro_context::first_space_from(s, 4) == 7);
            assert(crate::macro_context::first_space_from(s, 3) == 7);
            assert(crate::macro_context::first_space_from(s, 2) == 7);
            assert(crate::macro_context::first_space_from(s, 1) == 7);
            assert(crate::macro_context::first_space_from(s, 0) == 7);
        }
        assert(macro_name_of(s) =~= "_dbpath"@);
        assert(macro_body_of(s) =~= path@);
        // The prefix holds no NUL, so the whole string holds one exactly
        // when the path does.
        assert(has_nul(s) == has_nul(path@)) by {
            if has_nul(path@) {
                let j = choose|j: int| 0 <= j < path@.len() && path@[j] == '\0';
                assert(s[j + 8] == '\0');
                assert(has_nul(s));
            }
            if has_nul(s) {
                let j = choose|j: int| 0 <= j < s.len() && s[j] == '\0';
                assert(j >= 8);
                assert(path@[j - 8] == '\0');
                assert(has_nul(path@));
            }
        }
    }
    ctx.define(m.as_str(), 0)
}

} // verus!

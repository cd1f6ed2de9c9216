//! The environment as the client sees it: a snapshot of named values.

use crate::config::region::Region;
use crate::error::LogidError;
use crate::text::join3;
use vstd::hash_map::StringHashMap;
use vstd::prelude::*;

verus! {

/// The variable that holds a session credential for every region that has
/// none of its own.
pub const GENERIC_SESSION_VARIABLE: &'static str = "CAS_SESSION";

/// A snapshot of the environment.
pub struct EnvManager {
    env_vars: StringHashMap<String>,
}

/// What a list of bindings defines: each name stands for the value that was
/// bound to it last.
pub open spec fn bindings(vars: Seq<(String, String)>) -> Map<Seq<char>, Seq<char>>
    decreases vars.len(),
{
    if vars.len() == 0 {
        Map::empty()
    } else {
        bindings(vars.drop_last()).insert(vars.last().0@, vars.last().1@)
    }
}

/// The credential that a snapshot holds for a region: the region's own
/// variable where it is set and not empty, else the generic one where that is
/// set and not empty.
pub open spec fn session_in(env: Map<Seq<char>, Seq<char>>, region: Region) -> Option<Seq<char>> {
    let own = region.credential_variable();
    if env.contains_key(own) && env[own].len() > 0 {
        Some(env[own])
    } else if env.contains_key(GENERIC_SESSION_VARIABLE@) && env[GENERIC_SESSION_VARIABLE@].len() > 0 {
        Some(env[GENERIC_SESSION_VARIABLE@])
    } else {
        None
    }
}

/// The text that reports a missing credential: it names the region's own
/// variable and the generic one.
pub open spec fn missing_session_report(region: Region) -> Seq<char> {
    "未找到 "@ + region.credential_variable() + " 或 CAS_SESSION 环境变量"@
}

impl View for EnvManager {
    type V = Map<Seq<char>, Seq<char>>;

    closed spec fn view(&self) -> Map<Seq<char>, Seq<char>> {
        Map::new(|k: Seq<char>| self.env_vars@.contains_key(k), |k: Seq<char>| self.env_vars@[k]@)
    }
}

impl EnvManager {
    /// A snapshot made of the given bindings; where a name occurs twice the
    /// later binding counts.
    pub fn from_vars(vars: Vec<(String, String)>) -> (env: Self)
        ensures
            env@ == bindings(vars@),
    {
        let mut env = EnvManager { env_vars: StringHashMap::new() };
        assert(env@ =~= bindings(vars@.take(0)));
        let mut i: usize = 0;
        while i < vars.len()
            invariant
                i <= vars.len(),
                env@ == bindings(vars@.take(i as int)),
            decreases vars.len() - i,
        {
            let name = vars[i].0.clone();
            let value = vars[i].1.clone();
            let ghost before = env@;
            env.env_vars.insert(name, value);
            proof {
                let next = vars@.take(i + 1);
                assert(next.drop_last() =~= vars@.take(i as int));
                assert(next.last() == vars@[i as int]);
                assert(env@ =~= before.insert(vars@[i as int].0@, vars@[i as int].1@));
            }
            i += 1;
        }
        assert(vars@.take(vars.len() as int) =~= vars@);
        env
    }

    /// The session credential for a region: the region's own variable first,
    /// then the generic one; a variable that is set to the empty text counts
    /// as not set. Without either the error names the region's variable.
    pub fn get_cas_session(&self, region: Region) -> (session: Result<String, LogidError>)
        ensures
            match session_in(self@, region) {
                Some(credential) => session matches Ok(found) && found@ == credential,
                None => session matches Err(LogidError::MissingCredentials(report))
                    && report@ == missing_session_report(region),
            },
    {
        let region_var = region.cas_session_env_var();
        if let Some(session) = self.env_vars.get(region_var) {
            if !session.as_str().is_empty() {
                return Ok(session.clone());
            }
        }
        if let Some(session) = self.env_vars.get(GENERIC_SESSION_VARIABLE) {
            if !session.as_str().is_empty() {
                return Ok(session.clone());
            }
        }
        Err(LogidError::MissingCredentials(join3("未找到 ", region_var, " 或 CAS_SESSION 环境变量")))
    }

    /// The value of a variable, if the snapshot holds one.
    pub fn get_env(&self, key: &str) -> (value: Option<String>)
        ensures
            match value {
                Some(found) => self@.contains_key(key@) && found@ == self@[key@],
                None => !self@.contains_key(key@),
            },
    {
        match self.env_vars.get(key) {
            Some(found) => Some(found.clone()),
            None => None,
        }
    }
}

} // verus!

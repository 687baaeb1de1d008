//! Regular expressions in configurations: the label map rule and the
//! process matcher's settings.
use vstd::prelude::*;
use crate::error::AgentError;
use crate::relabel::RelabelRuleConfig;
use crate::text::str_eq;

verus! {

#[verifier::external_type_specification]
#[verifier::external_body]
pub struct ExRegex(regex::Regex);

/// Why `regex` refuses to compile a pattern (the error's text), or
/// `None` when it compiles.
pub uninterp spec fn regex_error(pattern: Seq<char>) -> Option<Seq<char>>;

/// Compiles `pattern` with `regex::Regex::new`: the regex, or the text of
/// the error. Whether a pattern compiles, and the error's text, depend on
/// the pattern alone (`regex`'s default size limit is fixed); the
/// contract names that outcome and says no more of it.
#[verifier::external_body]
fn compile_regex(pattern: &str) -> (r: Result<regex::Regex, String>)
    ensures
        match regex_error(pattern@) {
            None => r is Ok,
            Some(m) => r matches Err(e) && e@ == m,
        },
{
    regex::Regex::new(pattern).map_err(|e| e.to_string())
}

/// A rule that renames labels whose name matches a regular expression.
pub struct LabelMapRule {
    pub regex: regex::Regex,
    pub replacement: String,
}

/// Why a label map rule's settings are refused, in the order checked:
/// another action, no regex, a regex that does not compile, no
/// replacement.
pub open spec fn label_map_error(action: Option<Seq<char>>, regex: Option<Seq<char>>, replacement: Option<Seq<char>>) -> Option<Seq<char>> {
    if action matches Some(a) && a != "labelmap"@ {
        Some("'action' must be 'labelmap'"@)
    } else if regex.is_none() {
        Some("'regex' must be set"@)
    } else if regex_error(regex.unwrap()) is Some {
        regex_error(regex.unwrap())
    } else if replacement.is_none() {
        Some("'replacement' must be set"@)
    } else {
        None
    }
}

pub open spec fn opt_text(o: Option<String>) -> Option<Seq<char>> {
    match o {
        Some(s) => Some(s@),
        None => None,
    }
}

impl LabelMapRule {
    /// The rule of a configuration; refused settings are a
    /// `ConfigurationError` with the message of `label_map_error`.
    pub fn try_from(value: &RelabelRuleConfig) -> (r: Result<LabelMapRule, AgentError>)
        ensures
            match label_map_error(opt_text(value.action), opt_text(value.regex), opt_text(value.replacement)) {
                Some(m) => r matches Err(AgentError::ConfigurationError(e)) && e@ == m,
                None => r matches Ok(rule) && rule.replacement@ == value.replacement.unwrap()@,
            },
    {
        if let Some(x) = &value.action {
            if !str_eq(x.as_str(), "labelmap") {
                return Err(AgentError::ConfigurationError("'action' must be 'labelmap'".to_owned()));
            }
        }
        let regex = match &value.regex {
            Some(rx) => match compile_regex(rx.as_str()) {
                Ok(re) => re,
                Err(e) => return Err(AgentError::ConfigurationError(e)),
            },
            None => return Err(AgentError::ConfigurationError("'regex' must be set".to_owned())),
        };
        let replacement = match &value.replacement {
            Some(x) => x.clone(),
            None => return Err(AgentError::ConfigurationError("'replacement' must be set".to_owned())),
        };
        Ok(LabelMapRule { regex, replacement })
    }
}

/// Settings of the process statistics collector.
pub struct ProcstatConfig {
    pub pid_file: Option<String>,
    pub pattern: Option<String>,
    pub self_pid: Option<bool>,
    pub expose_labels: Option<Vec<String>>,
}

/// Which processes the collector watches, and whether it labels them
/// with their user.
pub struct ProcstatSettings {
    pub pid_file: Option<String>,
    pub pattern: Option<regex::Regex>,
    pub self_pid: bool,
    pub expose_user: bool,
}

/// Why the collector's settings are refused: nothing to watch, or a
/// pattern that does not compile.
pub open spec fn procstat_error(c: ProcstatConfig) -> Option<Seq<char>> {
    if c.pid_file.is_none() && c.pattern.is_none() && !c.self_pid.unwrap_or(false) {
        Some("pid_file, pattern, or self_pid must be set"@)
    } else if c.pattern matches Some(p) && regex_error(p@) is Some {
        regex_error(c.pattern.unwrap()@)
    } else {
        None
    }
}

pub open spec fn names(v: Seq<String>) -> Seq<Seq<char>> {
    v.map_values(|s: String| s@)
}

impl ProcstatSettings {
    /// The settings of a configuration: the user label is exposed when
    /// `user` is among the exposed labels; refused settings are a
    /// `ConfigurationError` with the message of `procstat_error`.
    pub fn try_from(value: &ProcstatConfig) -> (r: Result<ProcstatSettings, AgentError>)
        ensures
            match procstat_error(*value) {
                Some(m) => r matches Err(AgentError::ConfigurationError(e)) && e@ == m,
                None => r matches Ok(s) && s.pid_file == value.pid_file && s.pattern.is_some() == value.pattern.is_some()
                    && s.self_pid == value.self_pid.unwrap_or(false)
                    && s.expose_user == (match value.expose_labels {
                        Some(v) => names(v@).contains("user"@),
                        None => false,
                    }),
            },
    {
        let self_pid = match value.self_pid {
            Some(b) => b,
            None => false,
        };
        if value.pid_file.is_none() && value.pattern.is_none() && !self_pid {
            return Err(AgentError::ConfigurationError("pid_file, pattern, or self_pid must be set".to_owned()));
        }
        let pattern = match &value.pattern {
            Some(re) => match compile_regex(re.as_str()) {
                Ok(x) => Some(x),
                Err(e) => return Err(AgentError::ConfigurationError(e)),
            },
            None => None,
        };
        let expose_user = match &value.expose_labels {
            Some(v) => {
                let mut found = false;
                let mut i: usize = 0;
                while i < v.len()
                    invariant
                        i <= v.len(),
                        found == names(v@).take(i as int).contains("user"@),
                    decreases v.len() - i,
                {
                    let is_user = str_eq(v[i].as_str(), "user");
                    proof {
                        let t = names(v@).take(i + 1);
                        assert(t =~= names(v@).take(i as int).push(v@[i as int]@));
                        if is_user {
                            assert(t[i as int] == "user"@);
                        }
                    }
                    found = found || is_user;
                    i = i + 1;
                }
                assert(names(v@).take(i as int) =~= names(v@));
                found
            },
            None => false,
        };
        let pid_file = match &value.pid_file {
            Some(p) => Some(p.clone()),
            None => None,
        };
        Ok(ProcstatSettings { pid_file, pattern, self_pid, expose_user })
    }
}

} // verus!

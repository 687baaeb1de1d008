//! Options of config discovery: which collectors are disabled and where
//! discovery scripts live.
use vstd::prelude::*;
use crate::error::AgentError;
use crate::text::{chars_of, compare_chars, split, string_of, suffix_from};

verus! {

/// The string views of a vector of strings.
pub open spec fn string_views(v: Seq<String>) -> Seq<Seq<char>> {
    v.map_values(|s: String| s@)
}

/// What the discovery options hold.
pub struct OptsView {
    pub disable_builtins: bool,
    pub disabled: Set<Seq<char>>,
    pub enabled: Set<Seq<char>>,
    pub scripts: Seq<Seq<char>>,
}

/// Options of config discovery.
#[derive(Debug)]
pub struct ConfigDiscoveryOpts {
    disable_builtins: bool,
    disabled: Vec<String>,
    explicitly_enabled: Vec<String>,
    script_paths: Vec<String>,
}

impl View for ConfigDiscoveryOpts {
    type V = OptsView;

    closed spec fn view(&self) -> OptsView {
        OptsView {
            disable_builtins: self.disable_builtins,
            disabled: string_views(self.disabled@).to_set(),
            enabled: string_views(self.explicitly_enabled@).to_set(),
            scripts: string_views(self.script_paths@),
        }
    }
}

/// The options before any option is applied.
pub open spec fn default_opts() -> OptsView {
    OptsView {
        disable_builtins: false,
        disabled: Set::empty(),
        enabled: Set::empty(),
        scripts: Seq::empty(),
    }
}

/// The option text that disables every built-in collector.
pub open spec fn builtins_off() -> Seq<char> {
    seq!['-', 'b', 'u', 'i', 'l', 't', 'i', 'n', 's']
}

/// One comma-separated option applied: `-builtins` disables the built-in
/// collectors, `-name` disables `name`, `+name` enables `name` explicitly,
/// anything else is ignored.
pub open spec fn apply_option(o: OptsView, opt: Seq<char>) -> OptsView {
    if opt == builtins_off() {
        OptsView { disable_builtins: true, ..o }
    } else if opt.len() > 0 && opt[0] == '-' {
        OptsView { disabled: o.disabled.insert(opt.drop_first()), ..o }
    } else if opt.len() > 0 && opt[0] == '+' {
        OptsView { enabled: o.enabled.insert(opt.drop_first()), ..o }
    } else {
        o
    }
}

/// The options applied in order.
pub open spec fn apply_options(o: OptsView, opts: Seq<Seq<char>>) -> OptsView
    decreases opts.len(),
{
    if opts.len() == 0 {
        o
    } else {
        apply_option(apply_options(o, opts.drop_last()), opts.last())
    }
}

/// Whether discovery of the collector named `name` is disabled under `o`.
pub open spec fn disabled_under(o: OptsView, name: Seq<char>) -> bool {
    if o.disable_builtins {
        !o.enabled.contains(name)
    } else {
        o.disabled.contains(name)
    }
}

fn contains_string(v: &Vec<String>, s: &str) -> (r: bool)
    ensures
        r == string_views(v@).contains(s@),
{
    let target = chars_of(s);
    let mut i: usize = 0;
    while i < v.len()
        invariant
            i <= v.len(),
            target@ == s@,
            forall|j: int| 0 <= j < i ==> v@[j]@ != s@,
        decreases v.len() - i,
    {
        let c = chars_of(v[i].as_str());
        if compare_chars(c.as_slice(), target.as_slice()) == 0 {
            assert(string_views(v@)[i as int] == s@);
            return true;
        }
        i = i + 1;
    }
    proof {
        if string_views(v@).contains(s@) {
            let j = choose|j: int| 0 <= j < string_views(v@).len() && string_views(v@)[j] == s@;
            assert(v@[j]@ == s@);
        }
    }
    false
}

fn insert_string(v: &mut Vec<String>, s: String)
    ensures
        string_views(final(v)@).to_set() == string_views(old(v)@).to_set().insert(s@),
{
    if !contains_string(v, s.as_str()) {
        let ghost sv = s@;
        v.push(s);
        proof {
            assert(string_views(v@) =~= string_views(old(v)@).push(sv));
            assert(string_views(v@).to_set() =~= string_views(old(v)@).to_set().insert(sv)) by {
                assert forall|x: Seq<char>| string_views(v@).contains(x) == (string_views(old(v)@).contains(x) || x == sv) by {
                    if string_views(v@).contains(x) {
                        let j = choose|j: int| 0 <= j < string_views(v@).len() && string_views(v@)[j] == x;
                        if j < old(v)@.len() {
                            assert(string_views(old(v)@)[j] == x);
                        }
                    }
                    if string_views(old(v)@).contains(x) {
                        let j = choose|j: int| 0 <= j < string_views(old(v)@).len() && string_views(old(v)@)[j] == x;
                        assert(string_views(v@)[j] == x);
                    }
                    if x == sv {
                        assert(string_views(v@)[old(v)@.len() as int] == x);
                    }
                }
            }
        }
    } else {
        assert(string_views(v@).to_set() =~= string_views(v@).to_set().insert(s@));
    }
}

impl Default for ConfigDiscoveryOpts {
    fn default() -> (r: ConfigDiscoveryOpts)
        ensures
            r@ == default_opts(),
    {
        let r = ConfigDiscoveryOpts {
            disable_builtins: false,
            disabled: Vec::new(),
            explicitly_enabled: Vec::new(),
            script_paths: Vec::new(),
        };
        assert(r@.disabled =~= Set::<Seq<char>>::empty());
        assert(r@.enabled =~= Set::<Seq<char>>::empty());
        assert(r@.scripts =~= Seq::<Seq<char>>::empty());
        r
    }
}

impl ConfigDiscoveryOpts {
    /// Whether discovery of the collector `v` is disabled: with built-ins
    /// disabled, every collector not explicitly enabled is; otherwise only
    /// those disabled by name.
    pub fn is_disabled(&self, v: &str) -> (r: bool)
        ensures
            r == disabled_under(self@, v@),
    {
        if self.disable_builtins {
            !contains_string(&self.explicitly_enabled, v)
        } else {
            contains_string(&self.disabled, v)
        }
    }

    /// Adds a directory of discovery scripts, unless it is listed already.
    pub fn script_path(&mut self, path: &str)
        ensures
            final(self)@.disable_builtins == old(self)@.disable_builtins,
            final(self)@.disabled == old(self)@.disabled,
            final(self)@.enabled == old(self)@.enabled,
            final(self)@.scripts == if old(self)@.scripts.contains(path@) {
                old(self)@.scripts
            } else {
                old(self)@.scripts.push(path@)
            },
    {
        if !contains_string(&self.script_paths, path) {
            let p = path.to_owned();
            let ghost pv = p@;
            self.script_paths.push(p);
            assert(string_views(self.script_paths@) =~= string_views(old(self).script_paths@).push(pv));
        }
    }

    /// The directories of discovery scripts, in the order they were added.
    pub fn script_paths(&self) -> (r: Vec<String>)
        ensures
            string_views(r@) == self@.scripts,
    {
        let mut r: Vec<String> = Vec::new();
        let mut i: usize = 0;
        while i < self.script_paths.len()
            invariant
                i <= self.script_paths.len(),
                string_views(r@) == string_views(self.script_paths@).take(i as int),
            decreases self.script_paths.len() - i,
        {
            let c = self.script_paths[i].clone();
            let ghost r0 = r@;
            r.push(c);
            assert(string_views(r@) =~= string_views(r0).push(c@));
            assert(string_views(self.script_paths@).take(i + 1) =~= string_views(self.script_paths@).take(i as int).push(self.script_paths@[i as int]@));
            assert(string_views(r@) =~= string_views(self.script_paths@).take(i + 1));
            i = i + 1;
        }
        assert(string_views(self.script_paths@).take(i as int) =~= string_views(self.script_paths@));
        r
    }

    fn apply_option(&mut self, opt: &Vec<char>)
        ensures
            final(self)@ == apply_option(old(self)@, opt@),
    {
        let marker = chars_of("-builtins");
        proof { reveal_strlit("-builtins"); }
        assert(marker@ =~= builtins_off());
        if compare_chars(opt.as_slice(), marker.as_slice()) == 0 {
            self.disable_builtins = true;
            return;
        }
        if opt.len() > 0 && opt[0] == '-' {
            let rest = suffix_from(opt.as_slice(), 1);
            assert(opt@.skip(1) =~= opt@.drop_first());
            insert_string(&mut self.disabled, rest);
            return;
        }
        if opt.len() > 0 && opt[0] == '+' {
            let rest = suffix_from(opt.as_slice(), 1);
            assert(opt@.skip(1) =~= opt@.drop_first());
            insert_string(&mut self.explicitly_enabled, rest);
        }
    }

    /// Parses comma-separated options: `-builtins`, `-name` and `+name`;
    /// other items are ignored. Never fails.
    pub fn try_from(value: String) -> (r: Result<ConfigDiscoveryOpts, AgentError>)
        ensures
            r matches Ok(o) && o@ == apply_options(default_opts(), split(value@, ',')),
    {
        let mut r = ConfigDiscoveryOpts::default();
        let chars = chars_of(value.as_str());
        let mut cur: Vec<char> = Vec::new();
        let ghost mut done: Seq<Seq<char>> = Seq::empty();
        let mut i: usize = 0;
        while i < chars.len()
            invariant
                i <= chars.len(),
                chars@ == value@,
                split(chars@.take(i as int), ',') == done.push(cur@),
                r@ == apply_options(default_opts(), done),
            decreases chars.len() - i,
        {
            let c = chars[i];
            let ghost t = chars@.take(i as int);
            assert(chars@.take(i + 1) =~= t.push(c));
            assert(chars@.take(i + 1).drop_last() =~= t);
            if c == ',' {
                r.apply_option(&cur);
                proof {
                    assert(done.push(cur@).drop_last() =~= done);
                    done = done.push(cur@);
                }
                cur = Vec::new();
                assert(split(chars@.take(i + 1), ',') =~= done.push(cur@));
            } else {
                let ghost old_cur = cur@;
                cur.push(c);
                assert(split(chars@.take(i + 1), ',') =~= done.push(cur@)) by {
                    let pre = split(t, ',');
                    assert(pre == done.push(old_cur));
                    assert(pre.update(pre.len() - 1, pre.last().push(c)) =~= done.push(cur@));
                }
            }
            i = i + 1;
        }
        r.apply_option(&cur);
        proof {
            assert(chars@.take(i as int) =~= value@);
            let all = done.push(cur@);
            assert(all.drop_last() =~= done);
        }
        Ok(r)
    }
}


proof fn lemma_contains_push(pre: Seq<Seq<char>>, last: Seq<char>, x: Seq<char>)
    ensures
        pre.push(last).contains(x) == (pre.contains(x) || last == x),
{
    let s = pre.push(last);
    if pre.contains(x) {
        let i = choose|i: int| 0 <= i < pre.len() && pre[i] == x;
        assert(s[i] == x);
    }
    if last == x {
        assert(s[s.len() - 1] == x);
    }
    if s.contains(x) {
        let i = choose|i: int| 0 <= i < s.len() && s[i] == x;
        if i < pre.len() {
            assert(pre[i] == x);
        }
    }
}

proof fn lemma_options_tokens(toks: Seq<Seq<char>>, n: Seq<char>)
    ensures
        apply_options(default_opts(), toks).disable_builtins == toks.contains(builtins_off()),
        apply_options(default_opts(), toks).enabled.contains(n) == toks.contains(seq!['+'] + n),
        apply_options(default_opts(), toks).disabled.contains(n)
            == (toks.contains(seq!['-'] + n) && seq!['-'] + n != builtins_off()),
    decreases toks.len(),
{
    if toks.len() > 0 {
        let pre = toks.drop_last();
        let last = toks.last();
        lemma_options_tokens(pre, n);
        assert(pre.push(last) =~= toks);
        lemma_contains_push(pre, last, builtins_off());
        lemma_contains_push(pre, last, seq!['+'] + n);
        lemma_contains_push(pre, last, seq!['-'] + n);
        let plus = seq!['+'] + n;
        let minus = seq!['-'] + n;
        assert(plus[0] == '+' && minus[0] == '-' && builtins_off()[0] == '-');
        if last.len() > 0 {
            if last.drop_first() == n {
                assert(last =~= seq![last[0]] + n);
            }
        }
        if last == plus {
            assert(last.drop_first() =~= n);
        }
        if last == minus {
            assert(last.drop_first() =~= n);
        }
    } else {
        assert(!toks.contains(builtins_off()));
        assert(!toks.contains(seq!['+'] + n));
        assert(!toks.contains(seq!['-'] + n));
    }
}

/// Discovery options by their comma-separated tokens: with `-builtins`
/// among them, a collector is disabled unless `+name` is among them too;
/// otherwise it is disabled exactly when `-name` is among them.
pub proof fn lemma_disabled_by_tokens(value: Seq<char>, name: Seq<char>)
    ensures
        ({
            let toks = split(value, ',');
            disabled_under(apply_options(default_opts(), toks), name) == if toks.contains(builtins_off()) {
                !toks.contains(seq!['+'] + name)
            } else {
                toks.contains(seq!['-'] + name)
            }
        }),
{
    lemma_options_tokens(split(value, ','), name);
}

} // verus!

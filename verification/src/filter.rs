//! A directive-driven predicate deciding which log records are enabled:
//! an ordered list of (optional module prefix, verbosity ceiling) rules plus
//! a default, where the matching rule with the longest module name decides.

use vstd::prelude::*;
use vstd::string::StrSliceExecFns;
use vstd::string::StringExecFns;

use crate::level::Level;
use crate::level::LevelFilter;

verus! {

/// One filtering rule: records of a module whose path starts with `name`
/// pass when their level is within `level`; a rule without a name matches
/// every module not claimed by a more specific rule.
#[derive(Debug)]
pub struct Directive {
    /// Module prefix the rule applies to; `None` matches everything.
    pub name: Option<String>,
    /// Verbosity ceiling granted to the matched modules.
    pub level: LevelFilter,
}

/// The mathematical value of one rule: its module name as a character
/// sequence, and its ceiling.
pub struct DirectiveV {
    /// Module prefix the rule applies to; `None` matches everything.
    pub name: Option<Seq<char>>,
    /// Verbosity ceiling granted to the matched modules.
    pub level: LevelFilter,
}

impl View for Directive {
    type V = DirectiveV;

    open spec fn view(&self) -> DirectiveV {
        DirectiveV {
            name: match self.name {
                Some(n) => Some(n@),
                None => None,
            },
            level: self.level,
        }
    }
}

/// The values of a whole rule list.
pub open spec fn views(dirs: Seq<Directive>) -> Seq<DirectiveV> {
    dirs.map_values(|d: Directive| d@)
}

/// True when `p` is a leading part of `s`.
pub open spec fn is_prefix_of(p: Seq<char>, s: Seq<char>) -> bool {
    p.len() <= s.len() && s.subrange(0, p.len() as int) == p
}

impl DirectiveV {
    /// Length of the rule's module name; a nameless rule counts as length 0.
    pub open spec fn name_len(self) -> int {
        match self.name {
            Some(n) => n.len() as int,
            None => 0,
        }
    }

    /// True when the rule applies to records of module `target`.
    pub open spec fn spec_matches(self, target: Seq<char>) -> bool {
        match self.name {
            Some(n) => is_prefix_of(n, target),
            None => true,
        }
    }

    /// True when the two rules govern the same module name.
    pub open spec fn same_name(self, other: DirectiveV) -> bool {
        self.name == other.name
    }
}

/// The rule that decides a module `target`: of the applicable rules, the one
/// with the longest name; between equally long ones, the later in the list.
pub open spec fn spec_winner(dirs: Seq<DirectiveV>, target: Seq<char>) -> Option<DirectiveV>
    decreases dirs.len(),
{
    if dirs.len() == 0 {
        None
    } else {
        let rest = spec_winner(dirs.drop_last(), target);
        let d = dirs.last();
        if !d.spec_matches(target) {
            rest
        } else {
            match rest {
                None => Some(d),
                Some(r) => if d.name_len() >= r.name_len() {
                    Some(d)
                } else {
                    Some(r)
                },
            }
        }
    }
}

/// The most verbose ceiling any of the rules grants; `Off` when there are
/// no rules.
pub open spec fn spec_max_level(dirs: Seq<DirectiveV>) -> LevelFilter
    decreases dirs.len(),
{
    if dirs.len() == 0 {
        LevelFilter::Off
    } else {
        let rest = spec_max_level(dirs.drop_last());
        if dirs.last().level.verbosity() >= rest.verbosity() {
            dirs.last().level
        } else {
            rest
        }
    }
}

/// Index of the first rule governing the same module name as `d`, or -1.
pub open spec fn spec_find_same_name(dirs: Seq<DirectiveV>, d: DirectiveV) -> int
    decreases dirs.len(),
{
    if dirs.len() == 0 {
        -1
    } else if dirs[0].same_name(d) {
        0
    } else {
        let r = spec_find_same_name(dirs.drop_first(), d);
        if r == -1 {
            -1
        } else {
            r + 1
        }
    }
}

/// The rules a builder's rule list compiles to: an empty list becomes the
/// default filter, which lets errors through everywhere.
pub open spec fn spec_build(rules: Seq<DirectiveV>) -> Seq<DirectiveV> {
    if rules.len() == 0 {
        seq![DirectiveV { name: None, level: LevelFilter::Error }]
    } else {
        rules
    }
}

/// The rule list after adding `d`: `d` replaces the first rule with the same
/// module name, or goes to the end when there is none.
pub open spec fn spec_insert(dirs: Seq<DirectiveV>, d: DirectiveV) -> Seq<DirectiveV> {
    let i = spec_find_same_name(dirs, d);
    if i == -1 {
        dirs.push(d)
    } else {
        dirs.update(i, d)
    }
}

proof fn lemma_winner_level_bounded(dirs: Seq<DirectiveV>, target: Seq<char>)
    ensures
        match spec_winner(dirs, target) {
            Some(d) => d.level.verbosity() <= spec_max_level(dirs).verbosity(),
            None => true,
        },
    decreases dirs.len(),
{
    if dirs.len() > 0 {
        lemma_winner_level_bounded(dirs.drop_last(), target);
    }
}

/// The effective maximum is a true ceiling: a record more verbose than the
/// most verbose rule never passes the filter, whatever its module.
pub proof fn lemma_max_level_bounds_enabled(f: Filter, target: Seq<char>, level: Level)
    requires
        level.verbosity() > spec_max_level(f.rules()).verbosity(),
    ensures
        !f.spec_enabled(target, level),
{
    lemma_winner_level_bounded(f.rules(), target);
}

proof fn lemma_find_same_name(dirs: Seq<DirectiveV>, d: DirectiveV, k: int)
    requires
        0 <= k <= dirs.len(),
        forall|j: int| 0 <= j < k ==> !(#[trigger] dirs[j]).same_name(d),
        k < dirs.len() ==> dirs[k].same_name(d),
    ensures
        spec_find_same_name(dirs, d) == if k == dirs.len() {
            -1
        } else {
            k
        },
    decreases dirs.len(),
{
    if dirs.len() > 0 {
        if k == 0 {
        } else {
            assert(!dirs[0].same_name(d));
            lemma_find_same_name(dirs.drop_first(), d, k - 1);
        }
    }
}

/// Decides whether `p` is a leading part of `s`.
pub fn str_is_prefix(p: &str, s: &str) -> (r: bool)
    ensures
        r == is_prefix_of(p@, s@),
{
    let pl = p.unicode_len();
    let sl = s.unicode_len();
    if pl > sl {
        return false;
    }
    let mut i: usize = 0;
    while i < pl
        invariant
            0 <= i <= pl,
            pl == p@.len(),
            sl == s@.len(),
            pl <= sl,
            forall|j: int| 0 <= j < i ==> p@[j] == s@[j],
        decreases pl - i,
    {
        if p.get_char(i) != s.get_char(i) {
            return false;
        }
        i += 1;
    }
    proof {
        assert(s@.subrange(0, pl as int) =~= p@);
    }
    true
}

fn directive_matches(d: &Directive, target: &str) -> (r: bool)
    ensures
        r == d@.spec_matches(target@),
{
    match &d.name {
        Some(n) => str_is_prefix(n.as_str(), target),
        None => true,
    }
}

fn directive_name_len(d: &Directive) -> (r: usize)
    ensures
        r == d@.name_len(),
{
    match &d.name {
        Some(n) => n.as_str().unicode_len(),
        None => 0,
    }
}

fn same_name(a: &Directive, b: &Directive) -> (r: bool)
    ensures
        r == a@.same_name(b@),
{
    match (&a.name, &b.name) {
        (Some(x), Some(y)) => *x == *y,
        (None, None) => true,
        _ => false,
    }
}

/// Index of the first rule with the same module name as `d`, or the length
/// of the list when there is none.
fn find_same(dirs: &Vec<Directive>, d: &Directive) -> (r: usize)
    ensures
        r <= dirs@.len(),
        ({
            let f = spec_find_same_name(views(dirs@), d@);
            if f == -1 {
                r == dirs@.len()
            } else {
                r == f && r < dirs@.len()
            }
        }),
{
    let ghost vs = views(dirs@);
    let n = dirs.len();
    let mut i: usize = 0;
    while i < n
        invariant
            0 <= i <= n,
            n == dirs@.len(),
            vs == views(dirs@),
            vs.len() == n,
            forall|j: int| 0 <= j < n ==> vs[j] == dirs@[j]@,
            forall|j: int| 0 <= j < i ==> !(#[trigger] vs[j]).same_name(d@),
        decreases n - i,
    {
        if same_name(&dirs[i], d) {
            proof {
                lemma_find_same_name(vs, d@, i as int);
            }
            return i;
        }
        i += 1;
    }
    proof {
        lemma_find_same_name(vs, d@, n as int);
    }
    n
}

/// A compiled set of module→level rules; immutable once built.
#[derive(Debug)]
pub struct Filter {
    /// The rules, in the order the builder added them.
    pub directives: Vec<Directive>,
}

impl Filter {
    /// The values of this filter's rules.
    pub open spec fn rules(self) -> Seq<DirectiveV> {
        views(self.directives@)
    }

    /// True when a record of module `target` at `level` passes the rules.
    pub open spec fn spec_enabled(self, target: Seq<char>, level: Level) -> bool {
        match spec_winner(self.rules(), target) {
            Some(d) => level.spec_passes(d.level),
            None => false,
        }
    }

    /// Decides whether a record of module `target` at `level` passes.
    pub fn enabled(&self, target: &str, level: Level) -> (r: bool)
        ensures
            r == self.spec_enabled(target@, level),
    {
        let ghost all = self.rules();
        let n = self.directives.len();
        let mut best: Option<usize> = None;
        let mut i: usize = 0;
        while i < n
            invariant
                0 <= i <= n,
                n == self.directives@.len(),
                all == self.rules(),
                all.len() == n,
                forall|j: int| 0 <= j < n ==> all[j] == self.directives@[j]@,
                match best {
                    None => spec_winner(all.subrange(0, i as int), target@) is None,
                    Some(j) => j < i && spec_winner(all.subrange(0, i as int), target@) == Some(
                        all[j as int],
                    ),
                },
            decreases n - i,
        {
            let ghost prefix = all.subrange(0, i as int);
            let ghost next_prefix = all.subrange(0, i as int + 1);
            proof {
                assert(next_prefix.drop_last() =~= prefix);
                assert(next_prefix.last() == all[i as int]);
            }
            if directive_matches(&self.directives[i], target) {
                let dl = directive_name_len(&self.directives[i]);
                match best {
                    None => {
                        best = Some(i);
                    },
                    Some(j) => {
                        let bl = directive_name_len(&self.directives[j]);
                        if dl >= bl {
                            best = Some(i);
                        }
                    },
                }
            }
            i += 1;
        }
        proof {
            assert(all.subrange(0, n as int) =~= all);
        }
        match best {
            None => false,
            Some(j) => {
                let winner_level = self.directives[j].level;
                level.passes(winner_level)
            },
        }
    }

    /// The most verbose ceiling this filter is configured to let through:
    /// records above it never pass, whatever their module.
    pub fn filter(&self) -> (r: LevelFilter)
        ensures
            r == spec_max_level(self.rules()),
    {
        let ghost all = self.rules();
        let n = self.directives.len();
        let mut acc = LevelFilter::Off;
        let mut i: usize = 0;
        while i < n
            invariant
                0 <= i <= n,
                n == self.directives@.len(),
                all == self.rules(),
                all.len() == n,
                forall|j: int| 0 <= j < n ==> all[j] == self.directives@[j]@,
                acc == spec_max_level(all.subrange(0, i as int)),
            decreases n - i,
        {
            let ghost prefix = all.subrange(0, i as int);
            let ghost next_prefix = all.subrange(0, i as int + 1);
            proof {
                assert(next_prefix.drop_last() =~= prefix);
                assert(next_prefix.last() == all[i as int]);
            }
            let lvl = self.directives[i].level;
            acc = lvl.max(acc);
            i += 1;
        }
        proof {
            assert(all.subrange(0, n as int) =~= all);
        }
        acc
    }
}

/// Accumulates filtering rules and builds an immutable [`Filter`].
#[derive(Debug)]
pub struct FilterBuilder {
    /// The rules added so far, in insertion order.
    pub directives: Vec<Directive>,
}

impl FilterBuilder {
    /// The values of the rules added so far.
    pub open spec fn rules(self) -> Seq<DirectiveV> {
        views(self.directives@)
    }

    /// A builder with no rules.
    pub fn new() -> (r: FilterBuilder)
        ensures
            r.rules() =~= Seq::<DirectiveV>::empty(),
    {
        FilterBuilder { directives: Vec::new() }
    }

    /// Adds a rule for the modules whose path starts with `module`, or for
    /// everything when `module` is `None`; a rule for the same module name
    /// replaces the earlier one.
    pub fn filter(self, module: Option<&str>, level: LevelFilter) -> (r: FilterBuilder)
        ensures
            r.rules() == spec_insert(
                self.rules(),
                DirectiveV {
                    name: match module {
                        Some(m) => Some(m@),
                        None => None,
                    },
                    level,
                },
            ),
    {
        let name: Option<String> = match module {
            Some(m) => Some(String::from_str(m)),
            None => None,
        };
        let d = Directive { name, level };
        let ghost dv = DirectiveV {
            name: match module {
                Some(m) => Some(m@),
                None => None,
            },
            level,
        };
        proof {
            assert(d@ == dv);
        }
        let ghost old_rules = views(self.directives@);
        let mut dirs = self.directives;
        let i = find_same(&dirs, &d);
        proof {
            assert(old_rules == views(dirs@));
        }
        if i == dirs.len() {
            dirs.push(d);
            proof {
                assert(views(dirs@) =~= old_rules.push(dv));
            }
        } else {
            dirs.set(i, d);
            proof {
                assert(views(dirs@) =~= old_rules.update(i as int, dv));
            }
        }
        FilterBuilder { directives: dirs }
    }

    /// Adds a rule for one module prefix.
    pub fn filter_module(self, module: &str, level: LevelFilter) -> (r: FilterBuilder)
        ensures
            r.rules() == spec_insert(self.rules(), DirectiveV { name: Some(module@), level }),
    {
        self.filter(Some(module), level)
    }

    /// Adds the nameless rule that matches everything not otherwise matched.
    pub fn filter_level(self, level: LevelFilter) -> (r: FilterBuilder)
        ensures
            r.rules() == spec_insert(self.rules(), DirectiveV { name: None, level }),
    {
        self.filter(None, level)
    }

    /// Builds the filter. A builder with no rules yields the default filter,
    /// which lets errors through everywhere.
    pub fn build(self) -> (r: Filter)
        ensures
            r.rules() == spec_build(self.rules()),
    {
        let mut dirs = self.directives;
        if dirs.len() == 0 {
            let ghost before = views(dirs@);
            dirs.push(Directive { name: None, level: LevelFilter::Error });
            proof {
                assert(views(dirs@) =~= spec_build(before));
            }
        }
        Filter { directives: dirs }
    }
}

} // verus!

//! `${NAME}` substitution over configuration text.
//!
//! The program reads its configuration as bytes and replaces each `${NAME}`
//! reference with the value of the named variable before parsing; an unknown
//! name reads as the empty value. The variables themselves are handed in as
//! a table, built by the caller from its environment.

use vstd::prelude::*;

verus! {

/// The byte `$`.
pub const DOLLAR_BYTE: u8 = 36;

/// The byte `{`.
pub const OPEN_BRACE_BYTE: u8 = 123;

/// The byte `}`.
pub const CLOSE_BRACE_BYTE: u8 = 125;

fn bytes_eq(a: &Vec<u8>, b: &Vec<u8>) -> (r: bool)
    ensures
        r == (a@ == b@),
{
    if a.len() != b.len() {
        proof {
            assert(a@ != b@);
        }
        return false;
    }
    let mut i: usize = 0;
    while i < a.len()
        invariant
            i <= a@.len(),
            a@.len() == b@.len(),
            forall|t: int| 0 <= t < i ==> a@[t] == b@[t],
        decreases a@.len() - i,
    {
        if a[i] != b[i] {
            proof {
                assert(a@ != b@);
            }
            return false;
        }
        i += 1;
    }
    proof {
        assert(a@ =~= b@);
    }
    true
}

/// The variables available for substitution: a read-only table from name to
/// value.
pub struct EnvVars {
    names: Vec<Vec<u8>>,
    values: Vec<Vec<u8>>,
}

impl EnvVars {
    /// One value per name, and no name twice.
    pub closed spec fn wf(&self) -> bool {
        &&& self.names@.len() == self.values@.len()
        &&& forall|i: int, j: int|
            0 <= i < j < self.names@.len() ==> self.names@[i]@ != self.names@[j]@
    }

    /// Whether some variable is named `name`.
    pub closed spec fn spec_contains(&self, name: Seq<u8>) -> bool {
        exists|i: int| 0 <= i < self.names@.len() && self.names@[i]@ == name
    }

    /// The value of `name`; an unknown name reads as the empty value.
    pub closed spec fn spec_value_of(&self, name: Seq<u8>) -> Seq<u8> {
        if self.spec_contains(name) {
            let i = choose|i: int| 0 <= i < self.names@.len() && self.names@[i]@ == name;
            self.values@[i]@
        } else {
            Seq::empty()
        }
    }

    /// An empty table: every name resolves to the empty value.
    pub fn new() -> (r: EnvVars)
        ensures
            r.wf(),
            forall|name: Seq<u8>| !r.spec_contains(name),
            forall|name: Seq<u8>| r.spec_value_of(name) == Seq::<u8>::empty(),
    {
        EnvVars { names: Vec::new(), values: Vec::new() }
    }

    fn find(&self, name: &Vec<u8>) -> (o: Option<usize>)
        requires
            self.wf(),
        ensures
            match o {
                Some(i) => i < self.names@.len() && self.names@[i as int]@ == name@,
                None => !self.spec_contains(name@),
            },
    {
        let mut j: usize = 0;
        while j < self.names.len()
            invariant
                j <= self.names@.len(),
                forall|t: int| 0 <= t < j ==> self.names@[t]@ != name@,
            decreases self.names@.len() - j,
        {
            if bytes_eq(&self.names[j], name) {
                return Some(j);
            }
            j += 1;
        }
        None
    }

    /// Binds `name` to `value`, replacing any earlier binding of the same
    /// name; every other binding is untouched.
    pub fn insert(&mut self, name: Vec<u8>, value: Vec<u8>)
        requires
            old(self).wf(),
        ensures
            final(self).wf(),
            final(self).spec_contains(name@),
            forall|m: Seq<u8>|
                final(self).spec_value_of(m) == if m == name@ {
                    value@
                } else {
                    old(self).spec_value_of(m)
                },
            forall|m: Seq<u8>|
                final(self).spec_contains(m) == (m == name@ || old(self).spec_contains(m)),
    {
        let ghost names0 = self.names@;
        match self.find(&name) {
            Some(i) => {
                self.values.set(i, value);
                proof {
                    assert(self.names@ == names0);
                    assert forall|m: Seq<u8>| self.spec_value_of(m) == (if m == name@ {
                        value@
                    } else {
                        old(self).spec_value_of(m)
                    }) by {
                        if self.spec_contains(m) {
                            let j = choose|j: int|
                                0 <= j < self.names@.len() && self.names@[j]@ == m;
                            if m == name@ {
                                assert(j == i);
                            } else {
                                assert(j != i);
                            }
                        }
                    }
                }
            },
            None => {
                self.names.push(name);
                self.values.push(value);
                proof {
                    let n = names0.len() as int;
                    assert(self.names@[n]@ == name@);
                    assert(forall|t: int| 0 <= t < n ==> self.names@[t] == names0[t]);
                    assert forall|i: int, j: int|
                        0 <= i < j < self.names@.len() implies self.names@[i]@
                        != self.names@[j]@ by {
                        if j == n {
                            assert(names0[i]@ != name@);
                        }
                    }
                    assert forall|m: Seq<u8>| self.spec_value_of(m) == (if m == name@ {
                        value@
                    } else {
                        old(self).spec_value_of(m)
                    }) by {
                        if m == name@ {
                            let j = choose|j: int|
                                0 <= j < self.names@.len() && self.names@[j]@ == m;
                            assert(self.spec_contains(m));
                            assert(j == n);
                        } else {
                            if self.spec_contains(m) {
                                let j = choose|j: int|
                                    0 <= j < self.names@.len() && self.names@[j]@ == m;
                                assert(j != n);
                                assert(0 <= j < names0.len() && names0[j]@ == m);
                                let j0 = choose|j0: int|
                                    0 <= j0 < names0.len() && names0[j0]@ == m;
                                assert(j0 == j);
                            } else {
                                assert(!old(self).spec_contains(m));
                            }
                        }
                    }
                }
            },
        }
    }

    /// The value bound to `name`, or the empty value if the name is unknown.
    pub fn value_of(&self, name: &Vec<u8>) -> (r: Vec<u8>)
        requires
            self.wf(),
        ensures
            r@ == self.spec_value_of(name@),
    {
        match self.find(name) {
            Some(i) => {
                let r = self.values[i].clone();
                proof {
                    assert(r@ =~= self.values@[i as int]@);
                    let j = choose|j: int|
                        0 <= j < self.names@.len() && self.names@[j]@ == name@;
                    assert(j == i as int);
                }
                r
            },
            None => {
                let r: Vec<u8> = Vec::new();
                proof {
                    assert(r@ =~= self.spec_value_of(name@));
                }
                r
            },
        }
    }
}

/// The position of the first `${` at or after `from`, if any.
pub open spec fn spec_find_open(s: Seq<u8>, from: int) -> Option<int>
    recommends
        0 <= from,
    decreases s.len() - from,
{
    if from + 1 >= s.len() {
        None
    } else if s[from] == DOLLAR_BYTE && s[from + 1] == OPEN_BRACE_BYTE {
        Some(from)
    } else {
        spec_find_open(s, from + 1)
    }
}

/// The position of the first `}` at or after `from`, if any.
pub open spec fn spec_find_close(s: Seq<u8>, from: int) -> Option<int>
    recommends
        0 <= from,
    decreases s.len() - from,
{
    if from >= s.len() {
        None
    } else if s[from] == CLOSE_BRACE_BYTE {
        Some(from)
    } else {
        spec_find_close(s, from + 1)
    }
}

/// One substitution step: the first `${NAME}` reference is replaced by the
/// value of NAME. No step applies when no `${` is left, or when the last
/// `${` is never closed.
pub open spec fn spec_expand_step(s: Seq<u8>, vars: EnvVars) -> Option<Seq<u8>> {
    match spec_find_open(s, 0) {
        None => None,
        Some(open) => match spec_find_close(s, open + 2) {
            None => None,
            Some(close) => Some(
                s.subrange(0, open) + vars.spec_value_of(s.subrange(open + 2, close))
                    + s.subrange(close + 1, s.len() as int),
            ),
        },
    }
}

/// `n` substitution steps, stopping early once no step applies.
pub open spec fn spec_expand_iter(s: Seq<u8>, vars: EnvVars, n: nat) -> Seq<u8>
    decreases n,
{
    if n == 0 {
        s
    } else {
        let prev = spec_expand_iter(s, vars, (n - 1) as nat);
        match spec_expand_step(prev, vars) {
            None => prev,
            Some(next) => next,
        }
    }
}

fn find_open(s: &Vec<u8>) -> (o: Option<usize>)
    ensures
        match o {
            Some(i) => i as int + 1 < s@.len() && spec_find_open(s@, 0) == Some(i as int),
            None => spec_find_open(s@, 0) is None,
        },
{
    if s.len() < 2 {
        return None;
    }
    let mut i: usize = 0;
    while i < s.len() - 1
        invariant
            s@.len() >= 2,
            i as int + 1 <= s@.len(),
            spec_find_open(s@, 0) == spec_find_open(s@, i as int),
        decreases s@.len() - i,
    {
        if s[i] == DOLLAR_BYTE && s[i + 1] == OPEN_BRACE_BYTE {
            return Some(i);
        }
        proof {
            assert(spec_find_open(s@, i as int) == spec_find_open(s@, i as int + 1));
        }
        i += 1;
    }
    None
}

fn find_close(s: &Vec<u8>, from: usize) -> (o: Option<usize>)
    ensures
        match o {
            Some(i) => from <= i && (i as int) < s@.len() && spec_find_close(s@, from as int)
                == Some(i as int),
            None => spec_find_close(s@, from as int) is None,
        },
{
    if from >= s.len() {
        return None;
    }
    let mut i: usize = from;
    while i < s.len()
        invariant
            from <= i,
            i <= s@.len(),
            spec_find_close(s@, from as int) == spec_find_close(s@, i as int),
        decreases s@.len() - i,
    {
        if s[i] == CLOSE_BRACE_BYTE {
            return Some(i);
        }
        proof {
            assert(spec_find_close(s@, i as int) == spec_find_close(s@, i as int + 1));
        }
        i += 1;
    }
    None
}

fn subrange_vec(s: &Vec<u8>, from: usize, to: usize) -> (r: Vec<u8>)
    requires
        from <= to <= s@.len(),
    ensures
        r@ == s@.subrange(from as int, to as int),
{
    let mut r: Vec<u8> = Vec::new();
    let mut i: usize = from;
    while i < to
        invariant
            from <= i <= to <= s@.len(),
            r@.len() == i - from,
            forall|t: int| 0 <= t < r@.len() ==> r@[t] == s@[from + t],
        decreases to - i,
    {
        r.push(s[i]);
        i += 1;
    }
    assert(r@ =~= s@.subrange(from as int, to as int));
    r
}

fn splice(s: &Vec<u8>, open: usize, close: usize, value: &Vec<u8>) -> (r: Vec<u8>)
    requires
        open as int + 2 <= close as int,
        (close as int) < s@.len(),
    ensures
        r@ == s@.subrange(0, open as int) + value@ + s@.subrange(
            close as int + 1,
            s@.len() as int,
        ),
{
    let mut r = subrange_vec(s, 0, open);
    let mut i: usize = 0;
    while i < value.len()
        invariant
            i <= value@.len(),
            r@ == s@.subrange(0, open as int) + value@.subrange(0, i as int),
            open as int + 2 <= close as int,
            (close as int) < s@.len(),
        decreases value@.len() - i,
    {
        r.push(value[i]);
        proof {
            assert(r@ =~= s@.subrange(0, open as int) + value@.subrange(0, i as int + 1));
        }
        i += 1;
    }
    let s_len = s.len();
    assert(close < s_len);
    let tail = subrange_vec(s, close + 1, s_len);
    let mut j: usize = 0;
    proof {
        assert(value@.subrange(0, value@.len() as int) =~= value@);
    }
    while j < tail.len()
        invariant
            j <= tail@.len(),
            tail@ == s@.subrange(close as int + 1, s@.len() as int),
            r@ == s@.subrange(0, open as int) + value@ + tail@.subrange(0, j as int),
        decreases tail@.len() - j,
    {
        r.push(tail[j]);
        proof {
            assert(r@ =~= s@.subrange(0, open as int) + value@ + tail@.subrange(
                0,
                j as int + 1,
            ));
        }
        j += 1;
    }
    proof {
        assert(tail@.subrange(0, tail@.len() as int) =~= tail@);
    }
    r
}

/// Expands every `${NAME}` reference in `input` with the value of NAME from
/// `vars`; an unknown name expands to nothing. Substitution restarts from the
/// beginning after each step, exactly as [`spec_expand_iter`] iterates
/// [`spec_expand_step`], so values may themselves be expanded; a step budget
/// guards against a value that reintroduces its own reference forever.
pub fn expand_env_vars(input: &Vec<u8>, vars: &EnvVars) -> (r: Vec<u8>)
    requires
        vars.wf(),
    ensures
        exists|n: nat|
            r@ == #[trigger] spec_expand_iter(input@, *vars, n) && (spec_expand_step(r@, *vars)
                is None || n == 65536),
{
    let mut cur = input.clone();
    proof {
        assert(cur@ =~= input@);
        assert(cur@ == spec_expand_iter(input@, *vars, 0));
    }
    let mut steps: u64 = 0;
    while steps < 65536
        invariant
            vars.wf(),
            steps <= 65536,
            cur@ == spec_expand_iter(input@, *vars, steps as nat),
        decreases 65536 - steps,
    {
        let open = match find_open(&cur) {
            Some(o) => o,
            None => {
                return cur;
            },
        };
        let cur_len = cur.len();
        assert(open as int + 1 < cur_len);
        let close = match find_close(&cur, open + 2) {
            Some(c) => c,
            None => {
                return cur;
            },
        };
        let name = subrange_vec(&cur, open + 2, close);
        let value = vars.value_of(&name);
        let next = splice(&cur, open, close, &value);
        let ghost prev = cur@;
        cur = next;
        steps += 1;
        proof {
            assert(spec_expand_step(prev, *vars) == Some(cur@));
            assert(spec_expand_iter(input@, *vars, steps as nat) == cur@);
        }
    }
    cur
}

} // verus!

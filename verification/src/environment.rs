//! The environment that a project's container is started with: the
//! project's stored variables, with the database address and the port
//! added, one `KEY=value` line per variable in the order of the keys.
use vstd::prelude::*;
use crate::text::{append_chars, chars_of, string_of, strings};

verus! {

/// A value of a project's stored environment object.
pub enum EnvValue {
    Str(String),
    /// A number, by its decimal text.
    Num(String),
    Bool(bool),
    /// An array, an object or null.
    Other,
}

/// The text that a variable's value is passed as.
pub open spec fn value_text(v: EnvValue) -> Seq<char> {
    match v {
        EnvValue::Str(s) => s@,
        EnvValue::Num(t) => t@,
        EnvValue::Bool(b) => if b { "true"@ } else { "false"@ },
        EnvValue::Other => Seq::empty(),
    }
}

/// The order of keys: code point by code point, a proper prefix first.
pub open spec fn lex_lt(a: Seq<char>, b: Seq<char>) -> bool
    decreases a.len(),
{
    if a.len() == 0 {
        b.len() > 0
    } else if b.len() == 0 {
        false
    } else if (a[0] as int) < (b[0] as int) {
        true
    } else if a[0] == b[0] {
        lex_lt(a.drop_first(), b.drop_first())
    } else {
        false
    }
}

pub proof fn lemma_lex_irreflexive(a: Seq<char>)
    ensures
        !lex_lt(a, a),
    decreases a.len(),
{
    if a.len() > 0 {
        lemma_lex_irreflexive(a.drop_first());
    }
}

pub proof fn lemma_lex_transitive(a: Seq<char>, b: Seq<char>, c: Seq<char>)
    requires
        lex_lt(a, b),
        lex_lt(b, c),
    ensures
        lex_lt(a, c),
    decreases a.len(),
{
    if a.len() > 0 && b.len() > 0 && c.len() > 0 {
        if a[0] == b[0] && b[0] == c[0] {
            lemma_lex_transitive(a.drop_first(), b.drop_first(), c.drop_first());
        }
    }
}

pub proof fn lemma_lex_total(a: Seq<char>, b: Seq<char>)
    requires
        a != b,
    ensures
        lex_lt(a, b) || lex_lt(b, a),
    decreases a.len(),
{
    if a.len() > 0 && b.len() > 0 {
        if a[0] == b[0] {
            if a.drop_first() == b.drop_first() {
                assert(a =~= seq![a[0]] + a.drop_first());
                assert(b =~= seq![b[0]] + b.drop_first());
            }
            lemma_lex_total(a.drop_first(), b.drop_first());
        } else {
            assert((a[0] as int) != (b[0] as int));
        }
    } else if a.len() == 0 && b.len() == 0 {
        assert(a =~= b);
    }
}

/// Whether `a` comes before `b` in the order of keys.
pub fn lex_less(a: &Vec<char>, b: &Vec<char>) -> (r: bool)
    ensures
        r == lex_lt(a@, b@),
{
    let mut i: usize = 0;
    assert(a@.skip(0) =~= a@);
    assert(b@.skip(0) =~= b@);
    while i < a.len() && i < b.len()
        invariant
            i <= a.len(),
            i <= b.len(),
            lex_lt(a@, b@) == lex_lt(a@.skip(i as int), b@.skip(i as int)),
        decreases a.len() - i,
    {
        let x = a[i];
        let y = b[i];
        if x < y {
            return true;
        }
        if x != y {
            return false;
        }
        assert(a@.skip(i as int).drop_first() =~= a@.skip(i + 1));
        assert(b@.skip(i as int).drop_first() =~= b@.skip(i + 1));
        i = i + 1;
    }
    i < b.len()
}

/// The variables that `entries` set, a later entry of a key replacing an
/// earlier one.
pub open spec fn env_model(entries: Seq<(String, EnvValue)>) -> Map<Seq<char>, Seq<char>>
    decreases entries.len(),
{
    if entries.len() == 0 {
        Map::empty()
    } else {
        let last = entries.last();
        env_model(entries.drop_last()).insert(last.0@, value_text(last.1))
    }
}

/// The variables a project's container gets: its stored ones, with
/// `DATABASE_URL` set to its database's address and `PORT` to 80.
pub open spec fn deployment_env(entries: Seq<(String, EnvValue)>, db_url: Seq<char>) -> Map<
    Seq<char>,
    Seq<char>,
> {
    env_model(entries).insert("DATABASE_URL"@, db_url).insert("PORT"@, "80"@)
}

/// Keys in strictly increasing order.
pub open spec fn strictly_sorted(ks: Seq<Seq<char>>) -> bool {
    forall|i: int, j: int| 0 <= i < j < ks.len() ==> lex_lt(#[trigger] ks[i], #[trigger] ks[j])
}

/// Whether `lines` lists the variables of `m` under the keys `ks`, one
/// `KEY=value` line for each, in the order of the keys.
pub open spec fn env_listing(lines: Seq<Seq<char>>, m: Map<Seq<char>, Seq<char>>, ks: Seq<Seq<char>>) -> bool {
    &&& strictly_sorted(ks)
    &&& ks.len() == lines.len()
    &&& forall|key: Seq<char>| m.dom().contains(key) <==> ks.contains(key)
    &&& forall|j: int| 0 <= j < ks.len() ==> #[trigger] lines[j] == ks[j] + "="@ + m[ks[j]]
}

/// Whether `lines` lists the variables of `m`, one `KEY=value` line for
/// each, in the order of the keys.
pub open spec fn lists_env(lines: Seq<Seq<char>>, m: Map<Seq<char>, Seq<char>>) -> bool {
    exists|ks: Seq<Seq<char>>| env_listing(lines, m, ks)
}

/// The keys kept so far, in order, with their values.
struct SortedVars {
    keys: Vec<Vec<char>>,
    vals: Vec<String>,
}

impl SortedVars {
    spec fn ks(&self) -> Seq<Seq<char>> {
        self.keys@.map_values(|k: Vec<char>| k@)
    }

    spec fn holds(&self, m: Map<Seq<char>, Seq<char>>) -> bool {
        &&& self.keys.len() == self.vals.len()
        &&& strictly_sorted(self.ks())
        &&& forall|key: Seq<char>| m.dom().contains(key) <==> self.ks().contains(key)
        &&& forall|j: int| 0 <= j < self.keys.len() ==> m[#[trigger] self.ks()[j]] == self.vals@[j]@
    }

    fn set(&mut self, k: Vec<char>, v: String, Ghost(m): Ghost<Map<Seq<char>, Seq<char>>>)
        requires
            old(self).holds(m),
        ensures
            final(self).holds(m.insert(k@, v@)),
    {
        let ghost ks0 = self.ks();
        let n = self.keys.len();
        let mut i: usize = 0;
        loop
            invariant
                self.keys.len() == n,
                self.ks() == ks0,
                i <= n,
                forall|j: int| 0 <= j < i ==> lex_lt(#[trigger] ks0[j], k@),
            ensures
                i <= n,
                forall|j: int| 0 <= j < i ==> lex_lt(#[trigger] ks0[j], k@),
                i < n ==> !lex_lt(ks0[i as int], k@),
            decreases n - i,
        {
            if i >= n {
                break;
            }
            let before = lex_less(&self.keys[i], &k);
            if !before {
                break;
            }
            i = i + 1;
        }
        let found = if i < n {
            let same = crate::text::chars_equal(&self.keys[i], &k);
            same
        } else {
            false
        };
        let ghost m2 = m.insert(k@, v@);
        if found {
            self.vals.set(i, v);
            assert(self.ks() =~= ks0);
            assert forall|key: Seq<char>| m2.dom().contains(key) <==> self.ks().contains(key) by {
                if key == k@ {
                    assert(self.ks()[i as int] == key);
                }
            }
            assert forall|j: int| 0 <= j < self.keys.len() implies m2[#[trigger] self.ks()[j]]
                == self.vals@[j]@ by {
                if j != i {
                    if ks0[j] == k@ {
                        if j < i {
                            lemma_lex_transitive(ks0[j], ks0[i as int], ks0[i as int]);
                            lemma_lex_irreflexive(ks0[i as int]);
                        } else {
                            lemma_lex_irreflexive(ks0[i as int]);
                        }
                    }
                }
            }
        } else {
            proof {
                if i < n {
                    lemma_lex_total(ks0[i as int], k@);
                }
            }
            self.keys.insert(i, k);
            self.vals.insert(i, v);
            let ghost ks1 = self.ks();
            assert(ks1 =~= ks0.insert(i as int, k@));
            assert forall|a: int, b: int| 0 <= a < b < ks1.len() implies lex_lt(
                #[trigger] ks1[a],
                #[trigger] ks1[b],
            ) by {
                if b < i {
                } else if b == i {
                } else if a < i {
                    lemma_lex_transitive(ks1[a], k@, ks0[i as int]);
                    if b - 1 > i {
                        lemma_lex_transitive(ks1[a], ks0[i as int], ks1[b]);
                    }
                } else if a == i {
                    if b - 1 > i {
                        lemma_lex_transitive(k@, ks0[i as int], ks1[b]);
                    }
                } else {
                    assert(ks1[a] == ks0[a - 1] && ks1[b] == ks0[b - 1]);
                }
            }
            assert forall|key: Seq<char>| m2.dom().contains(key) <==> ks1.contains(key) by {
                if ks1.contains(key) {
                    let j = choose|j: int| 0 <= j < ks1.len() && ks1[j] == key;
                    if j < i {
                        assert(ks0[j] == key);
                    } else if j > i {
                        assert(ks0[j - 1] == key);
                    }
                }
                if m.dom().contains(key) {
                    let j = choose|j: int| 0 <= j < ks0.len() && ks0[j] == key;
                    if j < i {
                        assert(ks1[j] == key);
                    } else {
                        assert(ks1[j + 1] == key);
                    }
                }
                if key == k@ {
                    assert(ks1[i as int] == key);
                }
            }
            assert forall|j: int| 0 <= j < self.keys.len() implies m2[#[trigger] self.ks()[j]]
                == self.vals@[j]@ by {
                if j < i {
                    assert(ks1[j] == ks0[j]);
                    lemma_lex_irreflexive(k@);
                } else if j > i {
                    assert(ks1[j] == ks0[j - 1]);
                    if ks0[j - 1] == k@ {
                        lemma_lex_irreflexive(k@);
                    }
                }
            }
        }
    }
}

fn value_string(v: &EnvValue) -> (r: String)
    ensures
        r@ == value_text(*v),
{
    match v {
        EnvValue::Str(s) => s.clone(),
        EnvValue::Num(t) => t.clone(),
        EnvValue::Bool(b) => if *b {
            string_of(&chars_of("true"))
        } else {
            string_of(&chars_of("false"))
        },
        EnvValue::Other => String::new(),
    }
}

/// The environment of a project's container: its stored variables, with
/// `DATABASE_URL` and `PORT` set, as `KEY=value` lines in the order of
/// the keys.
pub fn container_env(entries: &Vec<(String, EnvValue)>, db_url: &str) -> (r: Vec<String>)
    ensures
        lists_env(strings(r@), deployment_env(entries@, db_url@)),
{
    let mut vars = SortedVars { keys: Vec::new(), vals: Vec::new() };
    proof {
        assert(vars.ks() =~= Seq::<Seq<char>>::empty());
    }
    let mut i: usize = 0;
    while i < entries.len()
        invariant
            i <= entries.len(),
            vars.holds(env_model(entries@.take(i as int))),
        decreases entries.len() - i,
    {
        let key = chars_of(entries[i].0.as_str());
        let val = value_string(&entries[i].1);
        proof {
            assert(entries@.take(i + 1).drop_last() =~= entries@.take(i as int));
        }
        vars.set(key, val, Ghost(env_model(entries@.take(i as int))));
        i = i + 1;
    }
    proof {
        assert(entries@.take(i as int) =~= entries@);
    }
    let ghost m0 = env_model(entries@);
    vars.set(chars_of("DATABASE_URL"), string_of(&chars_of(db_url)), Ghost(m0));
    vars.set(chars_of("PORT"), string_of(&chars_of("80")), Ghost(m0.insert("DATABASE_URL"@, db_url@)));
    let ghost m = deployment_env(entries@, db_url@);
    let mut out: Vec<String> = Vec::new();
    let mut j: usize = 0;
    while j < vars.keys.len()
        invariant
            vars.holds(m),
            j <= vars.keys.len(),
            out.len() == j,
            forall|t: int| 0 <= t < j ==> #[trigger] out@[t]@ == vars.ks()[t] + "="@ + m[vars.ks()[t]],
        decreases vars.keys.len() - j,
    {
        let mut line = vars.keys[j].clone();
        append_chars(&mut line, "=");
        append_chars(&mut line, vars.vals[j].as_str());
        out.push(string_of(&line));
        j = j + 1;
    }
    proof {
        let lines = strings(out@);
        let ks = vars.ks();
        assert(forall|t: int| 0 <= t < ks.len() ==> #[trigger] lines[t] == ks[t] + "="@ + m[ks[t]]);
        assert(env_listing(lines, m, ks));
    }
    out
}

proof fn lemma_listed_line(
    lines: Seq<Seq<char>>,
    m: Map<Seq<char>, Seq<char>>,
    ks: Seq<Seq<char>>,
    key: Seq<char>,
)
    requires
        env_listing(lines, m, ks),
        m.dom().contains(key),
    ensures
        lines.contains(key + "="@ + m[key]),
{
    assert(ks.contains(key));
    let i = choose|i: int| 0 <= i < ks.len() && ks[i] == key;
    assert(lines[i] == key + "="@ + m[key]);
}

/// Whatever a project stores, its container's environment sets
/// `DATABASE_URL` to the database address and `PORT` to 80.
pub proof fn environment_sets_database_and_port(
    lines: Seq<Seq<char>>,
    entries: Seq<(String, EnvValue)>,
    db_url: Seq<char>,
)
    requires
        lists_env(lines, deployment_env(entries, db_url)),
    ensures
        lines.contains("DATABASE_URL="@ + db_url),
        lines.contains("PORT=80"@),
{
    let m = deployment_env(entries, db_url);
    let ks = choose|ks: Seq<Seq<char>>| env_listing(lines, m, ks);
    assert("DATABASE_URL"@ != "PORT"@) by {
        reveal_strlit("DATABASE_URL");
        reveal_strlit("PORT");
        assert("DATABASE_URL"@.len() != "PORT"@.len());
    }
    assert(m.dom().contains("DATABASE_URL"@));
    assert(m.dom().contains("PORT"@));
    assert(m["DATABASE_URL"@] == db_url);
    lemma_listed_line(lines, m, ks, "DATABASE_URL"@);
    lemma_listed_line(lines, m, ks, "PORT"@);
    assert("DATABASE_URL"@ + "="@ + db_url =~= "DATABASE_URL="@ + db_url) by {
        reveal_strlit("DATABASE_URL");
        reveal_strlit("=");
        reveal_strlit("DATABASE_URL=");
    }
    assert("PORT"@ + "="@ + "80"@ =~= "PORT=80"@) by {
        reveal_strlit("PORT");
        reveal_strlit("=");
        reveal_strlit("80");
        reveal_strlit("PORT=80");
    }
}

} // verus!

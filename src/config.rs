use vstd::prelude::*;
use crate::text::{chars_of, parse_port, port_of, string_of};

verus! {

/// Credentials and port of a daemon, as its configuration file gives them.
#[derive(Debug, Clone)]
pub struct Config {
    pub rpc_user: String,
    pub rpc_password: String,
    pub rpc_port: u16,
}

/// Why a configuration file yields no usable client.
#[derive(Debug, Clone, Copy, PartialEq, Eq, Structural)]
pub enum ConfigError {
    MissingUser,
    MissingPassword,
    MissingPort,
    InvalidPort,
}

pub open spec fn user_key() -> Seq<char> {
    seq!['r', 'p', 'c', 'u', 's', 'e', 'r']
}

pub open spec fn password_key() -> Seq<char> {
    seq!['r', 'p', 'c', 'p', 'a', 's', 's', 'w', 'o', 'r', 'd']
}

pub open spec fn port_key() -> Seq<char> {
    seq!['r', 'p', 'c', 'p', 'o', 'r', 't']
}

/// Splitting at each newline: the finished lines and the line in progress.
pub open spec fn split_acc(s: Seq<char>) -> (Seq<Seq<char>>, Seq<char>)
    decreases s.len(),
{
    if s.len() == 0 {
        (Seq::empty(), Seq::empty())
    } else {
        let (done, cur) = split_acc(s.drop_last());
        if s.last() == '\n' {
            (done.push(cur), Seq::empty())
        } else {
            (done, cur.push(s.last()))
        }
    }
}

/// The pieces of `s` between newlines, the last one included even if empty.
pub open spec fn lines_of(s: Seq<char>) -> Seq<Seq<char>> {
    split_acc(s).0.push(split_acc(s).1)
}

/// `i` is the position of the first `=` of `line`.
pub open spec fn first_eq_at(line: Seq<char>, i: int) -> bool {
    &&& 0 <= i < line.len()
    &&& line[i] == '='
    &&& forall|j: int| 0 <= j < i ==> line[j] != '='
}

/// A line split at its first `=` into key and value; `None` without `=`.
pub open spec fn key_value(line: Seq<char>) -> Option<(Seq<char>, Seq<char>)> {
    if exists|i: int| first_eq_at(line, i) {
        let i = choose|i: int| first_eq_at(line, i);
        Some((line.subrange(0, i), line.subrange(i + 1, line.len() as int)))
    } else {
        None
    }
}

/// The value of the last line whose key is `key`.
pub open spec fn lookup(lines: Seq<Seq<char>>, key: Seq<char>) -> Option<Seq<char>>
    decreases lines.len(),
{
    if lines.len() == 0 {
        None
    } else {
        let kv = key_value(lines.last());
        if kv is Some && kv->Some_0.0 == key {
            Some(kv->Some_0.1)
        } else {
            lookup(lines.drop_last(), key)
        }
    }
}

/// What a configuration text yields: user, password and port, or the first
/// of the problems that user, password, port and the port's form can have.
pub open spec fn config_of_lines(lines: Seq<Seq<char>>) -> Result<(Seq<char>, Seq<char>, u16), ConfigError> {
    let user = lookup(lines, user_key());
    let password = lookup(lines, password_key());
    let port = lookup(lines, port_key());
    if user is None {
        Err(ConfigError::MissingUser)
    } else if password is None {
        Err(ConfigError::MissingPassword)
    } else if port is None {
        Err(ConfigError::MissingPort)
    } else if port_of(port->Some_0) is None {
        Err(ConfigError::InvalidPort)
    } else {
        Ok((user->Some_0, password->Some_0, port_of(port->Some_0)->Some_0))
    }
}

pub open spec fn config_of(contents: Seq<char>) -> Result<(Seq<char>, Seq<char>, u16), ConfigError> {
    config_of_lines(lines_of(contents))
}

/// The line `key=value`.
pub open spec fn entry_line(key: Seq<char>, value: Seq<char>) -> Seq<char> {
    key + seq!['='] + value
}

proof fn lemma_entry_line_splits(key: Seq<char>, value: Seq<char>)
    requires
        forall|j: int| 0 <= j < key.len() ==> key[j] != '=',
    ensures
        key_value(entry_line(key, value)) == Some((key, value)),
{
    let line = entry_line(key, value);
    let k = key.len() as int;
    assert(line[k] == '=');
    assert forall|j: int| 0 <= j < k implies line[j] != '=' by {
        assert(line[j] == key[j]);
    }
    assert(first_eq_at(line, k));
    let c = choose|c: int| first_eq_at(line, c);
    assert(c == k) by {
        if c < k {
            assert(line[c] == key[c]);
        }
    }
    assert(line.subrange(0, k) == key);
    assert(line.subrange(k + 1, line.len() as int) == value);
}

proof fn lemma_lookup_single_value(lines: Seq<Seq<char>>, key: Seq<char>, value: Seq<char>, w: int)
    requires
        0 <= w < lines.len(),
        key_value(lines[w]) == Some((key, value)),
        forall|i: int|
            0 <= i < lines.len() && #[trigger] key_value(lines[i]) is Some && key_value(lines[i])->Some_0.0 == key
                ==> key_value(lines[i])->Some_0.1 == value,
    ensures
        lookup(lines, key) == Some(value),
    decreases lines.len(),
{
    let last = lines.len() - 1;
    let kv = key_value(lines.last());
    if kv is Some && kv->Some_0.0 == key {
        assert(key_value(lines[last]) is Some);
    } else {
        assert(w != last);
        let rest = lines.drop_last();
        assert(rest[w] == lines[w]);
        assert forall|i: int|
            0 <= i < rest.len() && #[trigger] key_value(rest[i]) is Some && key_value(rest[i])->Some_0.0 == key
                implies key_value(rest[i])->Some_0.1 == value by {
            assert(rest[i] == lines[i]);
            assert(key_value(lines[i]) is Some);
        }
        lemma_lookup_single_value(rest, key, value, w);
    }
}

proof fn lemma_lines_order_independent(
    lines: Seq<Seq<char>>,
    u: Seq<char>,
    p: Seq<char>,
    t: Seq<char>,
    wu: int,
    wp: int,
    wt: int,
)
    requires
        port_of(t) is Some,
        0 <= wu < lines.len() && lines[wu] == entry_line(user_key(), u),
        0 <= wp < lines.len() && lines[wp] == entry_line(password_key(), p),
        0 <= wt < lines.len() && lines[wt] == entry_line(port_key(), t),
        forall|i: int|
            0 <= i < lines.len() ==> {
                ||| key_value(#[trigger] lines[i]) is None
                ||| lines[i] == entry_line(user_key(), u)
                ||| lines[i] == entry_line(password_key(), p)
                ||| lines[i] == entry_line(port_key(), t)
            },
    ensures
        config_of_lines(lines) == Ok::<(Seq<char>, Seq<char>, u16), ConfigError>((u, p, port_of(t)->Some_0)),
{
    assert(user_key() != password_key()) by {
        assert(user_key().len() != password_key().len());
    }
    assert(port_key() != password_key()) by {
        assert(port_key().len() != password_key().len());
    }
    assert(user_key() != port_key()) by {
        assert(user_key()[3] != port_key()[3]);
    }
    lemma_entry_line_splits(user_key(), u);
    lemma_entry_line_splits(password_key(), p);
    lemma_entry_line_splits(port_key(), t);
    lemma_lookup_single_value(lines, user_key(), u, wu);
    lemma_lookup_single_value(lines, password_key(), p, wp);
    lemma_lookup_single_value(lines, port_key(), t, wt);
}

/// Lines joined into one text, a newline between each two.
pub open spec fn join_lines(lines: Seq<Seq<char>>) -> Seq<char>
    decreases lines.len(),
{
    if lines.len() <= 1 {
        if lines.len() == 0 { Seq::empty() } else { lines[0] }
    } else {
        join_lines(lines.drop_last()) + seq!['\n'] + lines.last()
    }
}

pub open spec fn has_no_newline(s: Seq<char>) -> bool {
    forall|j: int| 0 <= j < s.len() ==> s[j] != '\n'
}

proof fn lemma_split_acc_plain_suffix(a: Seq<char>, b: Seq<char>)
    requires
        has_no_newline(b),
    ensures
        split_acc(a + b) == (split_acc(a).0, split_acc(a).1 + b),
    decreases b.len(),
{
    if b.len() == 0 {
        assert(a + b == a);
        assert(split_acc(a).1 + b == split_acc(a).1);
    } else {
        let init = b.drop_last();
        lemma_split_acc_plain_suffix(a, init);
        assert((a + b).drop_last() == a + init);
        assert((a + b).last() == b.last());
        assert(b.last() != '\n');
        assert((split_acc(a).1 + init).push(b.last()) == split_acc(a).1 + b);
    }
}

proof fn lemma_split_acc_join(lines: Seq<Seq<char>>)
    requires
        lines.len() >= 1,
        forall|i: int| 0 <= i < lines.len() ==> has_no_newline(#[trigger] lines[i]),
    ensures
        split_acc(join_lines(lines)) == (lines.drop_last(), lines.last()),
    decreases lines.len(),
{
    if lines.len() == 1 {
        lemma_split_acc_plain_suffix(Seq::empty(), lines[0]);
        assert(Seq::<char>::empty() + lines[0] == lines[0]);
        assert(lines.drop_last() == Seq::<Seq<char>>::empty());
    } else {
        let init = lines.drop_last();
        assert forall|i: int| 0 <= i < init.len() implies has_no_newline(#[trigger] init[i]) by {
            assert(init[i] == lines[i]);
        }
        lemma_split_acc_join(init);
        let x = join_lines(init) + seq!['\n'];
        assert(x.drop_last() == join_lines(init));
        assert(init.drop_last().push(init.last()) == init);
        assert(has_no_newline(lines[lines.len() - 1]));
        lemma_split_acc_plain_suffix(x, lines.last());
        assert(Seq::<char>::empty() + lines.last() == lines.last());
    }
}

/// Lines without newlines, joined by newlines, split back into themselves.
pub proof fn lemma_lines_of_join(lines: Seq<Seq<char>>)
    requires
        lines.len() >= 1,
        forall|i: int| 0 <= i < lines.len() ==> has_no_newline(#[trigger] lines[i]),
    ensures
        lines_of(join_lines(lines)) == lines,
{
    lemma_split_acc_join(lines);
    assert(lines.drop_last().push(lines.last()) == lines);
}

/// A configuration text made of the three entries `rpcuser=u`,
/// `rpcpassword=p` and `rpcport=t`, each present, in any order and any number
/// of times, among any lines without `=`, yields user `u`, password `p` and
/// the port that `t` spells: neither the order of the lines nor the lines
/// without `=` matter.
pub proof fn lemma_config_order_independent(
    lines: Seq<Seq<char>>,
    u: Seq<char>,
    p: Seq<char>,
    t: Seq<char>,
    wu: int,
    wp: int,
    wt: int,
)
    requires
        port_of(t) is Some,
        0 <= wu < lines.len() && lines[wu] == entry_line(user_key(), u),
        0 <= wp < lines.len() && lines[wp] == entry_line(password_key(), p),
        0 <= wt < lines.len() && lines[wt] == entry_line(port_key(), t),
        forall|i: int|
            0 <= i < lines.len() ==> {
                ||| key_value(#[trigger] lines[i]) is None
                ||| lines[i] == entry_line(user_key(), u)
                ||| lines[i] == entry_line(password_key(), p)
                ||| lines[i] == entry_line(port_key(), t)
            },
        forall|i: int| 0 <= i < lines.len() ==> has_no_newline(#[trigger] lines[i]),
    ensures
        config_of(join_lines(lines)) == Ok::<(Seq<char>, Seq<char>, u16), ConfigError>((u, p, port_of(t)->Some_0)),
{
    lemma_lines_of_join(lines);
    lemma_lines_order_independent(lines, u, p, t, wu, wp, wt);
}

/// The lines that hold an `=`, in their order.
pub open spec fn entries(lines: Seq<Seq<char>>) -> Seq<Seq<char>>
    decreases lines.len(),
{
    if lines.len() == 0 {
        Seq::empty()
    } else if key_value(lines.last()) is Some {
        entries(lines.drop_last()).push(lines.last())
    } else {
        entries(lines.drop_last())
    }
}

proof fn lemma_lookup_entries(lines: Seq<Seq<char>>, key: Seq<char>)
    ensures
        lookup(lines, key) == lookup(entries(lines), key),
    decreases lines.len(),
{
    if lines.len() > 0 {
        lemma_lookup_entries(lines.drop_last(), key);
        if key_value(lines.last()) is Some {
            let e = entries(lines.drop_last());
            assert(e.push(lines.last()).drop_last() == e);
            assert(e.push(lines.last()).last() == lines.last());
        }
    }
}

/// Lines without `=` do not count: a configuration yields what its lines
/// with `=` alone yield, so inserting or removing lines without `=` anywhere
/// in a text never changes what it yields.
pub proof fn lemma_config_ignores_lines_without_eq(a: Seq<char>, b: Seq<char>)
    requires
        entries(lines_of(a)) == entries(lines_of(b)),
    ensures
        config_of_lines(lines_of(a)) == config_of_lines(entries(lines_of(a))),
        config_of(a) == config_of(b),
{
    lemma_lookup_entries(lines_of(a), user_key());
    lemma_lookup_entries(lines_of(a), password_key());
    lemma_lookup_entries(lines_of(a), port_key());
    lemma_lookup_entries(lines_of(b), user_key());
    lemma_lookup_entries(lines_of(b), password_key());
    lemma_lookup_entries(lines_of(b), port_key());
}

/// A configuration without `rpcuser`, without `rpcpassword`, without
/// `rpcport`, or whose `rpcport` is not a 16-bit decimal number yields an error,
/// and the error names the first of these problems.
pub proof fn lemma_config_requires_all_keys(contents: Seq<char>)
    ensures
        lookup(lines_of(contents), user_key()) is None
            ==> config_of(contents) == Err::<(Seq<char>, Seq<char>, u16), ConfigError>(ConfigError::MissingUser),
        lookup(lines_of(contents), user_key()) is Some && lookup(lines_of(contents), password_key()) is None
            ==> config_of(contents) == Err::<(Seq<char>, Seq<char>, u16), ConfigError>(ConfigError::MissingPassword),
        lookup(lines_of(contents), password_key()) is None ==> config_of(contents) is Err,
        lookup(lines_of(contents), port_key()) is None ==> config_of(contents) is Err,
        lookup(lines_of(contents), port_key()) is Some && port_of(lookup(lines_of(contents), port_key())->Some_0) is None
            ==> config_of(contents) is Err,
        config_of(contents) is Ok <==> {
            &&& lookup(lines_of(contents), user_key()) is Some
            &&& lookup(lines_of(contents), password_key()) is Some
            &&& lookup(lines_of(contents), port_key()) is Some
            &&& port_of(lookup(lines_of(contents), port_key())->Some_0) is Some
        },
{
}

pub open spec fn views(ls: Seq<Vec<char>>) -> Seq<Seq<char>> {
    ls.map_values(|l: Vec<char>| l@)
}

impl Config {
    pub open spec fn view(&self) -> (Seq<char>, Seq<char>, u16) {
        (self.rpc_user@, self.rpc_password@, self.rpc_port)
    }

    /// Reads the credentials and port out of a configuration text of
    /// `key=value` lines.
    pub fn parse(contents: &str) -> (r: Result<Config, ConfigError>)
        ensures
            match r {
                Ok(c) => config_of(contents@) == Ok::<(Seq<char>, Seq<char>, u16), ConfigError>(c.view()),
                Err(e) => config_of(contents@) == Err::<(Seq<char>, Seq<char>, u16), ConfigError>(e),
            },
    {
        let cs = chars_of(contents);
        let lines = split_lines(&cs);
        assert(views(lines@) == lines_of(contents@));
        let user_k: Vec<char> = vec!['r', 'p', 'c', 'u', 's', 'e', 'r'];
        let password_k: Vec<char> = vec!['r', 'p', 'c', 'p', 'a', 's', 's', 'w', 'o', 'r', 'd'];
        let port_k: Vec<char> = vec!['r', 'p', 'c', 'p', 'o', 'r', 't'];
        assert(user_k@ == user_key());
        assert(password_k@ == password_key());
        assert(port_k@ == port_key());
        let user = lookup_key(&lines, &user_k);
        let password = lookup_key(&lines, &password_k);
        let port = lookup_key(&lines, &port_k);
        match user {
            None => Err(ConfigError::MissingUser),
            Some(u) => match password {
                None => Err(ConfigError::MissingPassword),
                Some(p) => match port {
                    None => Err(ConfigError::MissingPort),
                    Some(t) => match parse_port(&t) {
                        None => Err(ConfigError::InvalidPort),
                        Some(n) => Ok(
                            Config { rpc_user: string_of(&u), rpc_password: string_of(&p), rpc_port: n },
                        ),
                    },
                },
            },
        }
    }
}

/// The lines of a text, as `lines_of` gives them.
fn split_lines(cs: &Vec<char>) -> (r: Vec<Vec<char>>)
    ensures
        views(r@) == lines_of(cs@),
{
    let mut done: Vec<Vec<char>> = Vec::new();
    let mut cur: Vec<char> = Vec::new();
    let mut i: usize = 0;
    assert(cs@.subrange(0, 0) == Seq::<char>::empty());
    assert(views(done@) == Seq::<Seq<char>>::empty());
    while i < cs.len()
        invariant
            i <= cs@.len(),
            split_acc(cs@.subrange(0, i as int)) == (views(done@), cur@),
        decreases cs@.len() - i,
    {
        let c = cs[i];
        assert(cs@.subrange(0, i + 1).drop_last() == cs@.subrange(0, i as int));
        assert(cs@.subrange(0, i + 1).last() == c);
        if c == '\n' {
            let ghost before = done@;
            done.push(cur);
            cur = Vec::new();
            assert(views(done@) == views(before).push(views(done@).last()));
        } else {
            cur.push(c);
        }
        i = i + 1;
    }
    assert(cs@.subrange(0, cs@.len() as int) == cs@);
    let ghost before = done@;
    done.push(cur);
    assert(views(done@) == views(before).push(views(done@).last()));
    done
}

fn copy_range(v: &Vec<char>, from: usize, to: usize) -> (r: Vec<char>)
    requires
        from <= to <= v@.len(),
    ensures
        r@ == v@.subrange(from as int, to as int),
{
    let mut out: Vec<char> = Vec::new();
    let mut i: usize = from;
    while i < to
        invariant
            from <= i <= to <= v@.len(),
            out@ == v@.subrange(from as int, i as int),
        decreases to - i,
    {
        out.push(v[i]);
        assert(v@.subrange(from as int, i + 1) == v@.subrange(from as int, i as int).push(v@[i as int]));
        i = i + 1;
    }
    out
}

fn same_chars(a: &Vec<char>, b: &Vec<char>) -> (r: bool)
    ensures
        r == (a@ == b@),
{
    if a.len() != b.len() {
        return false;
    }
    let mut i: usize = 0;
    while i < a.len()
        invariant
            i <= a@.len() == b@.len(),
            forall|j: int| 0 <= j < i ==> a@[j] == b@[j],
        decreases a@.len() - i,
    {
        if a[i] != b[i] {
            return false;
        }
        i = i + 1;
    }
    assert(a@ == b@);
    true
}

/// A line split at its first `=`, as `key_value` gives it.
fn split_line(line: &Vec<char>) -> (r: Option<(Vec<char>, Vec<char>)>)
    ensures
        match r {
            Some((k, v)) => key_value(line@) == Some((k@, v@)),
            None => key_value(line@) is None,
        },
{
    let mut i: usize = 0;
    while i < line.len()
        invariant
            i <= line@.len(),
            forall|j: int| 0 <= j < i ==> line@[j] != '=',
        decreases line@.len() - i,
    {
        if line[i] == '=' {
            assert(first_eq_at(line@, i as int));
            let ghost c = choose|c: int| first_eq_at(line@, c);
            assert(c == i) by {
                if c < i {
                    assert(line@[c] != '=');
                } else if c > i {
                    assert(line@[i as int] != '=');
                }
            }
            let k = copy_range(line, 0, i);
            let v = copy_range(line, i + 1, line.len());
            return Some((k, v));
        }
        i = i + 1;
    }
    Option::None
}

/// The value of the last line whose key is `key`, as `lookup` gives it.
fn lookup_key(lines: &Vec<Vec<char>>, key: &Vec<char>) -> (r: Option<Vec<char>>)
    ensures
        match r {
            Some(v) => lookup(views(lines@), key@) == Some(v@),
            None => lookup(views(lines@), key@) is None,
        },
{
    let mut found: Option<Vec<char>> = None;
    let mut i: usize = 0;
    assert(views(lines@).subrange(0, 0) == Seq::<Seq<char>>::empty());
    while i < lines.len()
        invariant
            i <= lines@.len(),
            match found {
                Some(v) => lookup(views(lines@).subrange(0, i as int), key@) == Some(v@),
                None => lookup(views(lines@).subrange(0, i as int), key@) is None,
            },
        decreases lines@.len() - i,
    {
        let ghost prefix = views(lines@).subrange(0, i + 1);
        assert(prefix.drop_last() == views(lines@).subrange(0, i as int));
        assert(prefix.last() == lines@[i as int]@);
        match split_line(&lines[i]) {
            Some((k, v)) => {
                if same_chars(&k, key) {
                    found = Some(v);
                }
            },
            None => {},
        }
        i = i + 1;
    }
    assert(views(lines@).subrange(0, lines@.len() as int) == views(lines@));
    found
}

} // verus!

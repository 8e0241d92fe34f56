//! The fields of a log event as they are stored with it: the message apart,
//! the other fields by name in order, written as a JSON object.

use vstd::prelude::*;

use crate::string_set::{lex_less, lemma_lex_trichotomy, lemma_lex_transitive};
use crate::text::{chars_of, str_eq, decimal_string, decimal};

verus! {

/// The keys of the entries, in order.
pub open spec fn entry_keys(e: Seq<(String, String)>) -> Seq<Seq<char>> {
    e.map_values(|p: (String, String)| p.0@)
}

/// Every key comes strictly before the next one.
pub open spec fn keys_sorted(e: Seq<(String, String)>) -> bool {
    forall|i: int, j: int| 0 <= i < j < e.len() ==> lex_less(e[i].0@, e[j].0@)
}

/// The entries as a map from name to value.
pub open spec fn entry_map(e: Seq<(String, String)>) -> Map<Seq<char>, Seq<char>>
    decreases e.len(),
{
    if e.len() == 0 {
        Map::empty()
    } else {
        entry_map(e.drop_last()).insert(e.last().0@, e.last().1@)
    }
}

/// A JSON string escape of one character, as `serde_json` writes it.
pub open spec fn json_char(c: char) -> Seq<char> {
    if c == '"' {
        "\\\""@
    } else if c == '\\' {
        "\\\\"@
    } else if c == '\n' {
        "\\n"@
    } else if c == '\r' {
        "\\r"@
    } else if c == '\t' {
        "\\t"@
    } else if c == '\u{08}' {
        "\\b"@
    } else if c == '\u{0C}' {
        "\\f"@
    } else if (c as u32) < 0x20 {
        "\\u00"@ + seq![hex_digit((c as u32) / 16), hex_digit((c as u32) % 16)]
    } else {
        seq![c]
    }
}

/// A lower-case hexadecimal digit.
pub open spec fn hex_digit(d: u32) -> char {
    if d < 10 {
        ((d + 48) as u8) as char
    } else {
        ((d + 87) as u8) as char
    }
}

/// The escaped characters of a string.
pub open spec fn json_escaped(s: Seq<char>) -> Seq<char>
    decreases s.len(),
{
    if s.len() == 0 {
        Seq::empty()
    } else {
        json_escaped(s.drop_last()) + json_char(s.last())
    }
}

/// A JSON string literal.
pub open spec fn json_string(s: Seq<char>) -> Seq<char> {
    "\""@ + json_escaped(s) + "\""@
}

/// The members `"name":"value"` of the entries, comma-separated.
pub open spec fn json_members(e: Seq<(String, String)>) -> Seq<char>
    decreases e.len(),
{
    if e.len() == 0 {
        Seq::empty()
    } else if e.len() == 1 {
        json_string(e[0].0@) + ":"@ + json_string(e[0].1@)
    } else {
        json_members(e.drop_last()) + ","@ + json_string(e.last().0@) + ":"@ + json_string(
            e.last().1@,
        )
    }
}

/// The fields gathered from one log event.
#[derive(Debug, Clone)]
pub struct LogVisitor {
    pub message: Option<String>,
    pub fields: Vec<(String, String)>,
}

impl LogVisitor {
    /// The fields by name, in order.
    pub open spec fn entries(&self) -> Seq<(String, String)> {
        self.fields@
    }

    /// The names are in order.
    pub open spec fn wf(&self) -> bool {
        keys_sorted(self.fields@)
    }

    /// No message and no fields yet.
    pub fn new() -> (v: Self)
        ensures
            v.wf(),
            v.message is None,
            v.entries().len() == 0,
    {
        LogVisitor { message: None, fields: Vec::new() }
    }

    /// Records one field: `message` becomes the message, any other name
    /// is set to the value (a later value replaces an earlier one).
    pub fn record_value(&mut self, name: &str, value: String)
        requires
            old(self).wf(),
        ensures
            final(self).wf(),
            name@ == "message"@ ==> final(self).message == Some(value) && final(self).entries()
                == old(self).entries(),
            name@ != "message"@ ==> final(self).message == old(self).message && entry_map(
                final(self).entries(),
            ) == entry_map(old(self).entries()).insert(name@, value@),
    {
        if str_eq(name, "message") {
            self.message = Some(value);
            return;
        }
        let key = chars_of(name);
        let ghost start = self.fields@;
        let mut i: usize = 0;
        while i < self.fields.len() && key_precedes(&self.fields[i].0, &key)
            invariant
                i <= self.fields@.len(),
                self.fields@ == start,
                key@ == name@,
                keys_sorted(start),
                forall|k: int| 0 <= k < i ==> lex_less(#[trigger] start[k].0@, name@),
            decreases self.fields.len() - i,
        {
            i = i + 1;
        }
        let found = i < self.fields.len() && str_eq(self.fields[i].0.as_str(), name);
        proof {
            lemma_entry_map_keys(start);
        }
        if found {
            let ghost old_pair = start[i as int];
            let pair = (String::from_str(name), value);
            self.fields.set(i, pair);
            proof {
                lemma_entry_map_replace(start, i as int, pair);
            }
        } else {
            proof {
                if i < start.len() {
                    lemma_lex_trichotomy(start[i as int].0@, name@);
                }
            }
            let pair = (String::from_str(name), value);
            self.fields.insert(i, pair);
            proof {
                lemma_entry_map_insert(start, i as int, pair);
            }
        }
    }

    /// The fields as a JSON object, names in order.
    pub fn fields_json(&self) -> (s: String)
        ensures
            s@ == "{"@ + json_members(self.entries()) + "}"@,
    {
        let mut out = String::from_str("{");
        let mut i: usize = 0;
        while i < self.fields.len()
            invariant
                i <= self.fields@.len(),
                out@ == "{"@ + json_members(self.fields@.take(i as int)),
            decreases self.fields.len() - i,
        {
            proof {
                let t = self.fields@.take(i + 1);
                assert(t.drop_last() =~= self.fields@.take(i as int));
                assert(t.last() == self.fields@[i as int]);
                if i == 0 {
                    assert(self.fields@.take(0) =~= Seq::<(String, String)>::empty());
                }
            }
            if i > 0 {
                out = out.concat(",");
            }
            let (k, v) = &self.fields[i];
            out = out.concat(json_string_of(k.as_str()).as_str()).concat(":").concat(
                json_string_of(v.as_str()).as_str(),
            );
            proof {
                let t = self.fields@.take(i + 1);
                if i == 0 {
                    assert(json_members(t) == json_string(k@) + ":"@ + json_string(v@));
                }
            }
            i = i + 1;
        }
        assert(self.fields@.take(self.fields@.len() as int) =~= self.fields@);
        out.concat("}")
    }

    /// What an event stores: its message (the event's name when it had
    /// none) and its fields, with the source `file` and `line` added, as
    /// JSON.
    pub fn finish(self, event_name: &str, file: Option<&str>, line: Option<u32>) -> (r: (String, String))
        requires
            self.wf(),
        ensures
            r.0@ == match self.message {
                Some(m) => m@,
                None => event_name@,
            },
    {
        let mut visitor = self;
        let message = match &visitor.message {
            Some(m) => m.clone(),
            None => String::from_str(event_name),
        };
        let file_text = match file {
            Some(f) => String::from_str(f),
            None => String::new(),
        };
        let line_text = match line {
            Some(n) => decimal_string(n as u64),
            None => String::new(),
        };
        visitor.record_value("file", file_text);
        visitor.record_value("line", line_text);
        let fields = visitor.fields_json();
        (message, fields)
    }
}

/// Whether the key `a` comes strictly before `key`.
fn key_precedes(a: &String, key: &[char]) -> (r: bool)
    ensures
        r == lex_less(a@, key@),
{
    crate::string_set::chars_less(&chars_of(a.as_str()), key)
}

/// Writes [`json_string`].
pub fn json_string_of(s: &str) -> (r: String)
    ensures
        r@ == json_string(s@),
{
    let v = chars_of(s);
    let mut out: Vec<char> = Vec::new();
    out.push('"');
    let mut i: usize = 0;
    assert(v@.take(0) =~= Seq::<char>::empty());
    while i < v.len()
        invariant
            i <= v@.len(),
            out@ == seq!['"'] + json_escaped(v@.take(i as int)),
        decreases v.len() - i,
    {
        let c = v[i];
        proof {
            assert(v@.take(i + 1).drop_last() =~= v@.take(i as int));
            assert(v@.take(i + 1).last() == c);
        }
        let ghost before = out@;
        push_escaped(&mut out, c);
        assert(out@ =~= seq!['"'] + json_escaped(v@.take(i + 1)));
        i = i + 1;
    }
    assert(v@.take(v@.len() as int) =~= v@);
    out.push('"');
    proof {
        reveal_strlit("\"");
    }
    assert(out@ =~= json_string(s@));
    crate::text::string_of(&out)
}

/// Appends the escape of one character.
fn push_escaped(out: &mut Vec<char>, c: char)
    ensures
        final(out)@ == old(out)@ + json_char(c),
{
    proof {
        reveal_strlit("\\\"");
        reveal_strlit("\\\\");
        reveal_strlit("\\n");
        reveal_strlit("\\r");
        reveal_strlit("\\t");
        reveal_strlit("\\b");
        reveal_strlit("\\f");
        reveal_strlit("\\u00");
    }
    if c == '"' {
        out.push('\\');
        out.push('"');
    } else if c == '\\' {
        out.push('\\');
        out.push('\\');
    } else if c == '\n' {
        out.push('\\');
        out.push('n');
    } else if c == '\r' {
        out.push('\\');
        out.push('r');
    } else if c == '\t' {
        out.push('\\');
        out.push('t');
    } else if c == '\u{08}' {
        out.push('\\');
        out.push('b');
    } else if c == '\u{0C}' {
        out.push('\\');
        out.push('f');
    } else if (c as u32) < 0x20 {
        let code = c as u32;
        out.push('\\');
        out.push('u');
        out.push('0');
        out.push('0');
        out.push(hex_char(code / 16));
        out.push(hex_char(code % 16));
    } else {
        out.push(c);
    }
    assert(out@ =~= old(out)@ + json_char(c));
}

/// Computes [`hex_digit`].
fn hex_char(d: u32) -> (c: char)
    requires
        d < 16,
    ensures
        c == hex_digit(d),
{
    if d < 10 {
        ((d + 48) as u8) as char
    } else {
        ((d + 87) as u8) as char
    }
}

/// A sorted list has each key once, and its map holds every listed key
/// with its listed value.
proof fn lemma_entry_map_keys(e: Seq<(String, String)>)
    requires
        keys_sorted(e),
    ensures
        forall|k: int| 0 <= k < e.len() ==> #[trigger] entry_map(e).contains_key(e[k].0@) && entry_map(
            e,
        )[e[k].0@] == e[k].1@,
        forall|key: Seq<char>| #[trigger] entry_map(e).contains_key(key) ==> exists|k: int|
            0 <= k < e.len() && e[k].0@ == key,
    decreases e.len(),
{
    if e.len() > 0 {
        let p = e.drop_last();
        assert forall|i: int, j: int| 0 <= i < j < p.len() implies lex_less(p[i].0@, p[j].0@) by {
            assert(p[i] == e[i] && p[j] == e[j]);
        }
        lemma_entry_map_keys(p);
        assert forall|k: int| 0 <= k < e.len() implies #[trigger] entry_map(e).contains_key(e[k].0@)
            && entry_map(e)[e[k].0@] == e[k].1@ by {
            if k < e.len() - 1 {
                assert(p[k] == e[k]);
                assert(entry_map(p).contains_key(p[k].0@));
                assert(lex_less(e[k].0@, e.last().0@));
                lemma_lex_trichotomy(e[k].0@, e.last().0@);
            } else {
                assert(e[k] == e.last());
            }
        }
        assert forall|key: Seq<char>| #[trigger] entry_map(e).contains_key(key) implies exists|k: int|
            0 <= k < e.len() && e[k].0@ == key by {
            if key != e.last().0@ {
                assert(entry_map(p).contains_key(key));
                let k = choose|k: int| 0 <= k < p.len() && p[k].0@ == key;
                assert(e[k] == p[k]);
            } else {
                assert(e[e.len() - 1].0@ == key);
            }
        }
    }
}

/// Two sorted lists with the same entries as maps have the same map; used
/// to compare the map after a replacement or an insertion.
proof fn lemma_entry_map_eq(a: Seq<(String, String)>, m: Map<Seq<char>, Seq<char>>)
    requires
        keys_sorted(a),
        forall|k: int| 0 <= k < a.len() ==> #[trigger] m.contains_key(a[k].0@) && m[a[k].0@] == a[k].1@,
        forall|key: Seq<char>| #[trigger] m.contains_key(key) ==> exists|k: int| 0 <= k < a.len() && a[k].0@ == key,
    ensures
        entry_map(a) == m,
{
    lemma_entry_map_keys(a);
    assert forall|key: Seq<char>| entry_map(a).contains_key(key) <==> m.contains_key(key) by {
        if m.contains_key(key) {
            let k = choose|k: int| 0 <= k < a.len() && a[k].0@ == key;
        }
        if entry_map(a).contains_key(key) {
            let k = choose|k: int| 0 <= k < a.len() && a[k].0@ == key;
        }
    }
    assert forall|key: Seq<char>| #[trigger] entry_map(a).contains_key(key) implies entry_map(a)[key]
        == m[key] by {
        let k = choose|k: int| 0 <= k < a.len() && a[k].0@ == key;
        assert(entry_map(a).contains_key(a[k].0@));
        assert(m.contains_key(a[k].0@));
    }
    assert(entry_map(a) =~= m);
}

/// Replacing the value of a listed key.
proof fn lemma_entry_map_replace(e: Seq<(String, String)>, i: int, pair: (String, String))
    requires
        keys_sorted(e),
        0 <= i < e.len(),
        e[i].0@ == pair.0@,
    ensures
        keys_sorted(e.update(i, pair)),
        entry_map(e.update(i, pair)) == entry_map(e).insert(pair.0@, pair.1@),
{
    let u = e.update(i, pair);
    lemma_entry_map_keys(e);
    assert(keys_sorted(u)) by {
        assert forall|a: int, b: int| 0 <= a < b < u.len() implies lex_less(u[a].0@, u[b].0@) by {
            assert(u[a].0@ == e[a].0@);
            assert(u[b].0@ == e[b].0@);
        }
    }
    let m = entry_map(e).insert(pair.0@, pair.1@);
    assert forall|k: int| 0 <= k < u.len() implies #[trigger] m.contains_key(u[k].0@) && m[u[k].0@] == u[k].1@ by {
        if k != i {
            assert(u[k] == e[k]);
            lemma_lex_trichotomy(e[k].0@, e[i].0@);
        }
    }
    assert forall|key: Seq<char>| #[trigger] m.contains_key(key) implies exists|k: int| 0 <= k < u.len() && u[k].0@ == key by {
        if key == pair.0@ {
            assert(u[i].0@ == key);
        } else {
            let k = choose|k: int| 0 <= k < e.len() && e[k].0@ == key;
            assert(u[k].0@ == key);
        }
    }
    lemma_entry_map_eq(u, m);
}

/// Inserting a new key at its place.
proof fn lemma_entry_map_insert(e: Seq<(String, String)>, i: int, pair: (String, String))
    requires
        keys_sorted(e),
        0 <= i <= e.len(),
        forall|k: int| 0 <= k < i ==> lex_less(#[trigger] e[k].0@, pair.0@),
        i < e.len() ==> lex_less(pair.0@, e[i].0@),
    ensures
        keys_sorted(e.insert(i, pair)),
        entry_map(e.insert(i, pair)) == entry_map(e).insert(pair.0@, pair.1@),
{
    let u = e.insert(i, pair);
    lemma_entry_map_keys(e);
    assert(keys_sorted(u)) by {
        assert forall|a: int, b: int| 0 <= a < b < u.len() implies lex_less(u[a].0@, u[b].0@) by {
            if b < i {
            } else if b == i {
            } else if a < i {
                assert(u[b] == e[b - 1]);
                if a < b - 1 {
                } else {
                    assert(false);
                }
            } else if a == i {
                assert(u[b] == e[b - 1]);
                if b - 1 > i {
                    lemma_lex_transitive(pair.0@, e[i].0@, e[b - 1].0@);
                }
            } else {
                assert(u[a] == e[a - 1]);
                assert(u[b] == e[b - 1]);
            }
        }
    }
    let m = entry_map(e).insert(pair.0@, pair.1@);
    assert forall|k: int| 0 <= k < u.len() implies #[trigger] m.contains_key(u[k].0@) && m[u[k].0@] == u[k].1@ by {
        if k < i {
            assert(u[k] == e[k]);
            assert(entry_map(e).contains_key(e[k].0@));
            lemma_lex_trichotomy(e[k].0@, pair.0@);
        } else if k > i {
            assert(u[k] == e[k - 1]);
            assert(entry_map(e).contains_key(e[k - 1].0@));
            if k - 1 > i {
                lemma_lex_transitive(pair.0@, e[i].0@, e[k - 1].0@);
            }
            lemma_lex_trichotomy(e[k - 1].0@, pair.0@);
        } else {
            assert(u[k] == pair);
        }
    }
    assert forall|key: Seq<char>| #[trigger] m.contains_key(key) implies exists|k: int| 0 <= k < u.len() && u[k].0@ == key by {
        if key == pair.0@ {
            assert(u[i].0@ == key);
        } else {
            let k = choose|k: int| 0 <= k < e.len() && e[k].0@ == key;
            if k < i {
                assert(u[k].0@ == key);
            } else {
                assert(u[k + 1].0@ == key);
            }
        }
    }
    lemma_entry_map_eq(u, m);
}

} // verus!

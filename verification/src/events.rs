//! Inbound command events as plain values.
//!
//! The transport hands each slash-command invocation over as the command
//! name, the invoking actor, the originating channel, and the resolved
//! options (name/value pairs, with user references and role choices
//! transported as text). Option access and numeric parsing are total
//! functions; malformed actor input is reported, never a panic.

use vstd::prelude::*;

verus! {

/// A problem with actor-supplied input, answered with a corrective message
/// and never escalated.
#[derive(Clone, Copy, PartialEq, Eq, Structural, Debug)]
pub enum InputError {
    MissingOption,
    InvalidNumber,
    UnknownFilter,
    UnknownOperation,
    UnknownSubcommand,
}

/// The value of one resolved option.
pub enum OptValue {
    Text(String),
    Int(i64),
}

/// One resolved option of an invocation.
pub struct OptEntry {
    pub name: String,
    pub value: OptValue,
}

/// One inbound slash-command invocation, reduced to plain values.
pub struct Invocation {
    pub command: String,
    pub subcommand: Option<String>,
    pub options: Vec<OptEntry>,
    pub actor_id: u64,
    pub channel_id: u64,
    pub category_id: Option<u64>,
}

/// First option named `name`, if any.
pub open spec fn opt_lookup(s: Seq<OptEntry>, name: Seq<char>) -> Option<OptValue>
    decreases s.len(),
{
    if s.len() == 0 {
        Option::None
    } else if s[0].name@ == name {
        Option::Some(s[0].value)
    } else {
        opt_lookup(s.drop_first(), name)
    }
}

/// The text of the first option named `name`, if present and textual.
pub open spec fn text_opt(s: Seq<OptEntry>, name: Seq<char>) -> Option<Seq<char>> {
    match opt_lookup(s, name) {
        Option::Some(OptValue::Text(t)) => Option::Some(t@),
        _ => Option::None,
    }
}

/// The value of the first option named `name`, if present and integral.
pub open spec fn int_opt(s: Seq<OptEntry>, name: Seq<char>) -> Option<i64> {
    match opt_lookup(s, name) {
        Option::Some(OptValue::Int(v)) => Option::Some(v),
        _ => Option::None,
    }
}

impl Invocation {
    /// The text of the option named `name`, if present and textual.
    pub fn get_text(&self, name: &String) -> (r: Option<String>)
        ensures
            r is Some <==> text_opt(self.options@, name@) is Some,
            r is Some ==> r.unwrap()@ == text_opt(self.options@, name@).unwrap(),
    {
        let n = self.options.len();
        let mut i: usize = 0;
        proof {
            assert(self.options@.skip(0) =~= self.options@);
        }
        while i < n
            invariant
                i <= n,
                n == self.options@.len(),
                opt_lookup(self.options@, name@) == opt_lookup(
                    self.options@.skip(i as int),
                    name@,
                ),
            decreases n - i,
        {
            proof {
                let rest = self.options@.skip(i as int);
                assert(rest[0] == self.options@[i as int]);
                assert(rest.drop_first() =~= self.options@.skip(i as int + 1));
            }
            if self.options[i].name == *name {
                match &self.options[i].value {
                    OptValue::Text(t) => {
                        return Some(t.clone());
                    },
                    OptValue::Int(_) => {
                        return None;
                    },
                }
            }
            i = i + 1;
        }
        proof {
            assert(self.options@.skip(n as int) =~= Seq::<OptEntry>::empty());
        }
        None
    }

    /// The value of the option named `name`, if present and integral.
    pub fn get_int(&self, name: &String) -> (r: Option<i64>)
        ensures
            r == int_opt(self.options@, name@),
    {
        let n = self.options.len();
        let mut i: usize = 0;
        proof {
            assert(self.options@.skip(0) =~= self.options@);
        }
        while i < n
            invariant
                i <= n,
                n == self.options@.len(),
                opt_lookup(self.options@, name@) == opt_lookup(
                    self.options@.skip(i as int),
                    name@,
                ),
            decreases n - i,
        {
            proof {
                let rest = self.options@.skip(i as int);
                assert(rest[0] == self.options@[i as int]);
                assert(rest.drop_first() =~= self.options@.skip(i as int + 1));
            }
            if self.options[i].name == *name {
                match &self.options[i].value {
                    OptValue::Text(_) => {
                        return None;
                    },
                    OptValue::Int(v) => {
                        return Some(*v);
                    },
                }
            }
            i = i + 1;
        }
        proof {
            assert(self.options@.skip(n as int) =~= Seq::<OptEntry>::empty());
        }
        None
    }
}

/// Whether `c` is an ASCII decimal digit.
pub open spec fn is_digit(c: char) -> bool {
    48 <= c as int <= 57
}

/// The number denoted by a digit sequence, most significant first.
pub open spec fn digits_val(s: Seq<char>) -> int
    decreases s.len(),
{
    if s.len() == 0 {
        0
    } else {
        digits_val(s.drop_last()) * 10 + (s.last() as int - 48)
    }
}

/// What parsing an unsigned decimal yields: the denoted number if the text
/// is one or more digits and the value fits in a u64, nothing otherwise.
pub open spec fn parse_u64_spec(s: Seq<char>) -> Option<u64> {
    if s.len() > 0 && (forall|i: int| 0 <= i < s.len() ==> is_digit(s[i])) && digits_val(s)
        <= u64::MAX {
        Option::Some(digits_val(s) as u64)
    } else {
        Option::None
    }
}

proof fn lemma_digits_val_nonneg(s: Seq<char>)
    requires
        forall|i: int| 0 <= i < s.len() ==> is_digit(s[i]),
    ensures
        digits_val(s) >= 0,
    decreases s.len(),
{
    if s.len() > 0 {
        assert forall|i: int| 0 <= i < s.drop_last().len() implies is_digit(
            s.drop_last()[i],
        ) by {
            assert(s.drop_last()[i] == s[i]);
        }
        lemma_digits_val_nonneg(s.drop_last());
    }
}

proof fn lemma_digits_prefix_mono(s: Seq<char>, a: int, b: int)
    requires
        forall|i: int| 0 <= i < s.len() ==> is_digit(s[i]),
        0 <= a <= b <= s.len(),
    ensures
        digits_val(s.take(a)) <= digits_val(s.take(b)),
    decreases b - a,
{
    if a < b {
        lemma_digits_prefix_mono(s, a, b - 1);
        let p = s.take(b);
        assert(p.drop_last() =~= s.take(b - 1));
        assert forall|i: int| 0 <= i < p.len() implies is_digit(p[i]) by {
            assert(p[i] == s[i]);
        }
        let q = s.take(b - 1);
        assert forall|i: int| 0 <= i < q.len() implies is_digit(q[i]) by {
            assert(q[i] == s[i]);
        }
        lemma_digits_val_nonneg(q);
        assert(is_digit(p.last()));
    }
}

/// Parses an unsigned decimal number; reports nothing on empty text, a
/// non-digit, or a value that does not fit in a u64.
pub fn parse_u64(s: &String) -> (r: Option<u64>)
    ensures
        r == parse_u64_spec(s@),
{
    let st = s.as_str();
    let n = st.unicode_len();
    if n == 0 {
        return None;
    }
    let mut acc: u64 = 0;
    let mut i: usize = 0;
    proof {
        assert(s@.take(0) =~= Seq::<char>::empty());
    }
    while i < n
        invariant
            i <= n,
            n == s@.len(),
            st@ == s@,
            forall|j: int| 0 <= j < i ==> is_digit(s@[j]),
            acc == digits_val(s@.take(i as int)),
        decreases n - i,
    {
        let c = st.get_char(i);
        let cv = c as u32;
        proof {
            assert(s@.take(i as int + 1).drop_last() =~= s@.take(i as int));
            assert(s@.take(i as int + 1).last() == s@[i as int]);
        }
        if cv < 48 || cv > 57 {
            return None;
        }
        let d = (cv - 48) as u64;
        if acc > (u64::MAX - d) / 10 {
            proof {
                assert(digits_val(s@.take(i as int + 1)) == acc * 10 + d);
                assert(acc * 10 + d > u64::MAX) by (nonlinear_arith)
                    requires
                        acc > (u64::MAX - d) / 10,
                        d <= 9,
                ;
                assert forall|j: int| 0 <= j < s@.len() && is_digit(s@[j]) == false implies
                    !(forall|t: int| 0 <= t < s@.len() ==> is_digit(s@[t])) by {}
                if forall|t: int| 0 <= t < s@.len() ==> is_digit(s@[t]) {
                    lemma_digits_prefix_mono(s@, i as int + 1, n as int);
                    assert(s@.take(n as int) =~= s@);
                }
            }
            return None;
        }
        proof {
            assert(acc * 10 + d <= u64::MAX) by (nonlinear_arith)
                requires
                    acc <= (u64::MAX - d) / 10,
                    d <= 9,
            ;
        }
        acc = acc * 10 + d;
        i = i + 1;
    }
    proof {
        assert(s@.take(n as int) =~= s@);
    }
    Some(acc)
}

} // verus!

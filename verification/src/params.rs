//! Typed reading of command-line arguments.  The argument source is a flat
//! key-to-text mapping handed in by the CLI layer; the parser converts the
//! raw texts into typed values and collects every failure instead of
//! stopping at the first, so that one invocation reports all bad inputs
//! together, each naming its own field and its own rejected text.

use vstd::prelude::*;

verus! {

use crate::numbers::{parse_u32, spec_parse_u32};
use crate::text::{check_decimal_literal, is_decimal_literal, parse_bool, spec_parse_bool, str_eq};

/// The value under `key`, first occurrence, in a list of key/value pairs.
pub open spec fn pairs_lookup(pairs: Seq<(String, String)>, key: Seq<char>) -> Option<Seq<char>>
    decreases pairs.len(),
{
    if pairs.len() == 0 {
        None
    } else if pairs[0].0@ == key {
        Some(pairs[0].1@)
    } else {
        pairs_lookup(pairs.skip(1), key)
    }
}

/// The parsed command-line input of one invocation: for each supplied
/// argument its key and its raw text.  An absent key means the field was
/// not supplied.
pub struct ArgSource {
    pub pairs: Vec<(String, String)>,
}

impl ArgSource {
    /// What the source holds under `key`.
    pub open spec fn lookup(self, key: Seq<char>) -> Option<Seq<char>> {
        pairs_lookup(self.pairs@, key)
    }

    /// An empty source.
    pub fn new() -> (r: ArgSource)
        ensures
            r.pairs@.len() == 0,
    {
        ArgSource { pairs: Vec::new() }
    }

    /// Adds one argument.
    pub fn push_arg(&mut self, key: String, value: String)
        ensures
            final(self).pairs@ == old(self).pairs@.push((key, value)),
    {
        self.pairs.push((key, value));
    }

    /// The raw text under `key`, if the key was supplied.
    pub fn value_of<'a>(&'a self, key: &str) -> (r: Option<&'a String>)
        ensures
            match r {
                Some(v) => self.lookup(key@) == Some(v@),
                None => self.lookup(key@) is None,
            },
    {
        let ghost all = self.pairs@;
        let n = self.pairs.len();
        let mut k: usize = 0;
        proof {
            assert(all.skip(0) =~= all);
        }
        while k < n
            invariant
                0 <= k as int <= n as int,
                n as nat == self.pairs@.len(),
                all == self.pairs@,
                pairs_lookup(all, key@) == pairs_lookup(all.skip(k as int), key@),
            decreases n as int - k as int,
        {
            proof {
                assert(all.skip(k as int)[0] == all[k as int]);
            }
            if str_eq(self.pairs[k].0.as_str(), key) {
                return Some(&self.pairs[k].1);
            }
            proof {
                assert(all.skip(k as int).skip(1) =~= all.skip(k as int + 1));
            }
            k = k + 1;
        }
        proof {
            assert(all.skip(n as int) =~= Seq::<(String, String)>::empty());
        }
        None
    }

    /// Whether `key` was supplied at all.
    pub fn is_present(&self, key: &str) -> (r: bool)
        ensures
            r == (self.lookup(key@) is Some),
    {
        match self.value_of(key) {
            Some(_) => true,
            None => false,
        }
    }
}

/// One recorded parse failure: the field that was being read and the raw
/// text that was rejected — always the text of that same field.
#[derive(Debug)]
pub struct ParseFailure {
    pub field: String,
    pub raw: String,
}

/// The error list grew by exactly one entry, naming `field` and `raw`.
pub open spec fn pushed_failure(
    old_errs: Seq<ParseFailure>,
    new_errs: Seq<ParseFailure>,
    field: Seq<char>,
    raw: Seq<char>,
) -> bool {
    &&& new_errs.len() == old_errs.len() + 1
    &&& new_errs.drop_last() == old_errs
    &&& new_errs.last().field@ == field
    &&& new_errs.last().raw@ == raw
}

/// The line this library prints for one parse failure.
pub open spec fn failure_line(field: Seq<char>, raw: Seq<char>) -> Seq<char> {
    field + " ("@ + raw + " given)"@
}

/// All failure lines, one per line.
pub open spec fn failures_text(fs: Seq<ParseFailure>) -> Seq<char>
    decreases fs.len(),
{
    if fs.len() == 0 {
        Seq::empty()
    } else if fs.len() == 1 {
        failure_line(fs[0].field@, fs[0].raw@)
    } else {
        failures_text(fs.drop_last()) + seq!['\n'] + failure_line(fs.last().field@, fs.last().raw@)
    }
}

/// The views of a list of key/value pairs.
pub open spec fn pairs_model(ps: Seq<(String, String)>) -> Seq<(Seq<char>, Seq<char>)> {
    Seq::new(
        ps.len(),
        |i: int|
            if 0 <= i < ps.len() {
                (ps[i].0@, ps[i].1@)
            } else {
                (Seq::<char>::empty(), Seq::<char>::empty())
            },
    )
}

/// The text an optional string holds.
pub open spec fn opt_text(o: Option<String>) -> Option<Seq<char>> {
    match o {
        Some(s) => Some(s@),
        None => None,
    }
}

/// The failure entry that reading `key` as a `u32` contributes: one entry
/// when the key is supplied and its text is no `u32` numeral, none otherwise.
pub open spec fn u32_failure(args: ArgSource, key: Seq<char>) -> Seq<(Seq<char>, Seq<char>)> {
    match args.lookup(key) {
        Some(raw) => if spec_parse_u32(raw) is None {
            seq![(key, raw)]
        } else {
            Seq::empty()
        },
        None => Seq::empty(),
    }
}

/// The failure entry that reading `key` as a boolean contributes.
pub open spec fn bool_failure(args: ArgSource, key: Seq<char>) -> Seq<(Seq<char>, Seq<char>)> {
    match args.lookup(key) {
        Some(raw) => if spec_parse_bool(raw) is None {
            seq![(key, raw)]
        } else {
            Seq::empty()
        },
        None => Seq::empty(),
    }
}

/// The failure entry that reading `key` as a decimal literal contributes.
pub open spec fn decimal_failure(args: ArgSource, key: Seq<char>) -> Seq<(Seq<char>, Seq<char>)> {
    match args.lookup(key) {
        Some(raw) => if !is_decimal_literal(raw) {
            seq![(key, raw)]
        } else {
            Seq::empty()
        },
        None => Seq::empty(),
    }
}

/// What reading `key` as a `u32` yields when no failure is recorded.
pub open spec fn u32_value_of(args: ArgSource, key: Seq<char>) -> Option<u32> {
    match args.lookup(key) {
        Some(raw) => spec_parse_u32(raw),
        None => None,
    }
}

/// What reading `key` as a boolean yields when no failure is recorded.
pub open spec fn bool_value_of(args: ArgSource, key: Seq<char>) -> Option<bool> {
    match args.lookup(key) {
        Some(raw) => spec_parse_bool(raw),
        None => None,
    }
}

/// Why building a parameter record failed.  Parse and validation failures
/// come in aggregate, with one entry per offending field; a build failure
/// names the required field that was never supplied; an unsupported failure
/// names a field this client does not take from the command line.
#[derive(Debug)]
pub enum ParamError {
    Parse(Vec<ParseFailure>),
    Validation(Vec<crate::validate::ValidationFailure>),
    Build(String),
    Unsupported(String),
}

/// The expected failure entries match the recorded ones, field for field and
/// raw text for raw text, in order.
pub open spec fn failures_match(
    es: Seq<ParseFailure>,
    expected: Seq<(Seq<char>, Seq<char>)>,
) -> bool {
    &&& es.len() == expected.len()
    &&& forall|i: int|
        0 <= i < es.len() ==> (#[trigger] es[i]).field@ == expected[i].0 && es[i].raw@
            == expected[i].1
}

/// Reads typed values out of an [`ArgSource`], recording every failure.
pub struct Parser {
    pub parse_errors: Vec<ParseFailure>,
}

impl Parser {
    /// A parser that has seen no failure yet.
    pub fn new() -> (r: Parser)
        ensures
            r.parse_errors@.len() == 0,
    {
        Parser { parse_errors: Vec::new() }
    }

    /// `Ok` when every read so far parsed; otherwise all failure lines,
    /// joined, one line per offending field.
    pub fn successful_parse(&self) -> (r: Result<(), String>)
        ensures
            match r {
                Ok(()) => self.parse_errors@.len() == 0,
                Err(m) => self.parse_errors@.len() > 0 && m@ == failures_text(self.parse_errors@),
            },
    {
        if self.parse_errors.len() == 0 {
            Ok(())
        } else {
            Err(self.error_message())
        }
    }

    /// All failure lines, one per line.
    pub fn error_message(&self) -> (r: String)
        ensures
            r@ == failures_text(self.parse_errors@),
    {
        let ghost fs = self.parse_errors@;
        let n = self.parse_errors.len();
        let mut out = String::new();
        let mut k: usize = 0;
        proof {
            assert(fs.subrange(0, 0) =~= Seq::<ParseFailure>::empty());
        }
        while k < n
            invariant
                0 <= k as int <= n as int,
                n as nat == self.parse_errors@.len(),
                fs == self.parse_errors@,
                out@ == failures_text(fs.subrange(0, k as int)),
            decreases n as int - k as int,
        {
            if k > 0 {
                out.append("\n");
                proof {
                    reveal_strlit("\n");
                }
            }
            out.append(self.parse_errors[k].field.as_str());
            out.append(" (");
            out.append(self.parse_errors[k].raw.as_str());
            out.append(" given)");
            proof {
                assert(fs.subrange(0, k as int + 1).last() == fs[k as int]);
                assert(fs.subrange(0, k as int + 1).drop_last() =~= fs.subrange(0, k as int));
                if k == 0 {
                    assert(failures_text(fs.subrange(0, 1)) == failure_line(
                        fs.subrange(0, 1)[0].field@,
                        fs.subrange(0, 1)[0].raw@,
                    ));
                }
                assert(out@ =~= failures_text(fs.subrange(0, k as int + 1)));
            }
            k = k + 1;
        }
        proof {
            assert(fs.subrange(0, n as int) =~= fs);
        }
        out
    }

    /// Reads `key` as an unsigned 32-bit number.  An absent key is no
    /// error; a present key that does not parse is recorded, naming this
    /// key and its raw text, and reading goes on.
    pub fn parse_u32_value(&mut self, args: &ArgSource, key: &str) -> (r: Option<u32>)
        ensures
            match args.lookup(key@) {
                None => r is None && final(self).parse_errors == old(self).parse_errors,
                Some(raw) => match spec_parse_u32(raw) {
                    Some(v) => r == Some(v) && final(self).parse_errors == old(self).parse_errors,
                    None => r is None && pushed_failure(
                        old(self).parse_errors@,
                        final(self).parse_errors@,
                        key@,
                        raw,
                    ),
                },
            },
    {
        match args.value_of(key) {
            None => None,
            Some(rawtext) => match parse_u32(rawtext.as_str()) {
                Some(v) => Some(v),
                None => {
                    let rejected = rawtext.clone();
                    self.parse_errors.push(ParseFailure { field: key.to_owned(), raw: rejected });
                    proof {
                        assert(self.parse_errors@.drop_last() =~= old(self).parse_errors@);
                    }
                    None
                },
            },
        }
    }

    /// Reads `key` as a boolean (`true` or `false`), recording a failure on
    /// any other text.
    pub fn parse_bool_value(&mut self, args: &ArgSource, key: &str) -> (r: Option<bool>)
        ensures
            match args.lookup(key@) {
                None => r is None && final(self).parse_errors == old(self).parse_errors,
                Some(raw) => match spec_parse_bool(raw) {
                    Some(v) => r == Some(v) && final(self).parse_errors == old(self).parse_errors,
                    None => r is None && pushed_failure(
                        old(self).parse_errors@,
                        final(self).parse_errors@,
                        key@,
                        raw,
                    ),
                },
            },
    {
        match args.value_of(key) {
            None => None,
            Some(rawtext) => match parse_bool(rawtext.as_str()) {
                Some(v) => Some(v),
                None => {
                    let rejected = rawtext.clone();
                    self.parse_errors.push(ParseFailure { field: key.to_owned(), raw: rejected });
                    proof {
                        assert(self.parse_errors@.drop_last() =~= old(self).parse_errors@);
                    }
                    None
                },
            },
        }
    }

    /// Reads `key` as a decimal literal kept verbatim (digits, optionally a
    /// point and more digits), recording a failure on any other shape.
    pub fn parse_decimal_value(&mut self, args: &ArgSource, key: &str) -> (r: Option<String>)
        ensures
            match args.lookup(key@) {
                None => r is None && final(self).parse_errors == old(self).parse_errors,
                Some(raw) => if is_decimal_literal(raw) {
                    r matches Some(v) && v@ == raw && final(self).parse_errors == old(
                        self,
                    ).parse_errors
                } else {
                    r is None && pushed_failure(
                        old(self).parse_errors@,
                        final(self).parse_errors@,
                        key@,
                        raw,
                    )
                },
            },
    {
        match args.value_of(key) {
            None => None,
            Some(rawtext) => {
                if check_decimal_literal(rawtext.as_str()) {
                    Some(rawtext.clone())
                } else {
                    let rejected = rawtext.clone();
                    self.parse_errors.push(ParseFailure { field: key.to_owned(), raw: rejected });
                    proof {
                        assert(self.parse_errors@.drop_last() =~= old(self).parse_errors@);
                    }
                    None
                }
            },
        }
    }

    /// Reads `key` as text.  Text never fails to parse.
    pub fn parse_string_value(&mut self, args: &ArgSource, key: &str) -> (r: Option<String>)
        ensures
            final(self).parse_errors == old(self).parse_errors,
            match args.lookup(key@) {
                None => r is None,
                Some(raw) => r matches Some(v) && v@ == raw,
            },
    {
        match args.value_of(key) {
            None => None,
            Some(rawtext) => Some(rawtext.clone()),
        }
    }
}

} // verus!

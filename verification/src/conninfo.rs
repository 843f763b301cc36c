//! Connection options: LibPQ's own `PQconninfoOption` arrays, as key-value
//! pairs.

use vstd::prelude::*;
use vstd::string::*;
use crate::errors::{PQError, PQResult};
use crate::ffi::{to_string_lossy, utf8_lossy};

verus! {

/// The key of the client encoding, which is always `UTF8`.
pub open spec fn encoding_key() -> Seq<char> {
    "client_encoding"@
}

/// The only client encoding used.
pub open spec fn encoding_value() -> Seq<char> {
    "UTF8"@
}

/// A key-value pair seen as sequences of characters.
pub open spec fn pair_view(p: (String, String)) -> (Seq<char>, Seq<char>) {
    (p.0@, p.1@)
}

/// Key-value pairs seen as sequences of characters.
pub open spec fn pairs_view(s: Seq<(String, String)>) -> Seq<(Seq<char>, Seq<char>)> {
    s.map_values(|p: (String, String)| pair_view(p))
}

/// The pairs that an array of raw options (a keyword's bytes and, unless it
/// is null, a value's bytes) yields: options without a value are left out.
pub open spec fn kept_options(options: Seq<(Vec<u8>, Option<Vec<u8>>)>) -> Seq<
    (Seq<char>, Seq<char>),
>
    decreases options.len(),
{
    if options.len() == 0 {
        seq![]
    } else {
        let rest = kept_options(options.drop_last());
        match options.last().1 {
            Some(v) => rest.push((utf8_lossy(options.last().0@), utf8_lossy(v@))),
            None => rest,
        }
    }
}

/// The pairs whose key is not the client encoding, in order.
pub open spec fn other_params(values: Seq<(Seq<char>, Seq<char>)>) -> Seq<(Seq<char>, Seq<char>)>
    decreases values.len(),
{
    if values.len() == 0 {
        seq![]
    } else {
        let rest = other_params(values.drop_last());
        if values.last().0 == encoding_key() {
            rest
        } else {
            rest.push(values.last())
        }
    }
}

/// The parameters a connection is opened with: the client encoding `UTF8`
/// first, then every other option in order.
pub open spec fn connection_params_spec(values: Seq<(Seq<char>, Seq<char>)>) -> Seq<
    (Seq<char>, Seq<char>),
> {
    seq![(encoding_key(), encoding_value())] + other_params(values)
}

/// The message of a failed parse of a connection string.
pub open spec fn parse_error_message(error: Option<Vec<u8>>) -> Seq<char> {
    match error {
        None => "Unknown error parsing DSN string"@,
        Some(e) => "Error parsing DSN string: "@ + utf8_lossy(e@),
    }
}

/// A set of connection options, as key-value pairs.
///
/// See [`PQconndefaults`](https://www.postgresql.org/docs/current/libpq-connect.html#LIBPQ-PQCONNDEFAULTS)
#[derive(Debug)]
pub struct Conninfo {
    values: Vec<(String, String)>,
}

impl View for Conninfo {
    type V = Seq<(Seq<char>, Seq<char>)>;

    closed spec fn view(&self) -> Seq<(Seq<char>, Seq<char>)> {
        pairs_view(self.values@)
    }
}

impl Default for Conninfo {
    /// An empty [`Conninfo`]: LibPQ applies its defaults anyway whenever
    /// opening a connection.
    fn default() -> (r: Conninfo)
        ensures
            r@ == Seq::<(Seq<char>, Seq<char>)>::empty(),
    {
        let r = Conninfo { values: Vec::new() };
        assert(r@ =~= Seq::<(Seq<char>, Seq<char>)>::empty());
        r
    }
}

impl Conninfo {
    /// A [`Conninfo`] holding the given pairs, in order.
    pub fn from_pairs(values: Vec<(String, String)>) -> (r: Conninfo)
        ensures
            r@ == pairs_view(values@),
    {
        Conninfo { values }
    }

    /// Creates a [`Conninfo`] from an array of LibPQ's own
    /// `PQconninfoOption`: for each option its keyword's bytes and, unless it
    /// is null, its value's bytes. Options without a value are left out.
    pub fn from_options(options: &Vec<(Vec<u8>, Option<Vec<u8>>)>) -> (r: PQResult<Conninfo>)
        ensures
            r matches Ok(info) && info@ == kept_options(options@),
    {
        let mut values: Vec<(String, String)> = Vec::new();
        let n = options.len();
        let mut i: usize = 0;
        while i < n
            invariant
                n == options.len(),
                i <= n,
                pairs_view(values@) == kept_options(options@.subrange(0, i as int)),
            decreases n - i,
        {
            let ghost before = values@;
            assert(options@.subrange(0, i + 1).drop_last() =~= options@.subrange(0, i as int));
            match &options[i].1 {
                Some(v) => {
                    let key = to_string_lossy(options[i].0.as_slice());
                    let value = to_string_lossy(v.as_slice());
                    values.push((key, value));
                    assert(pairs_view(values@) =~= pairs_view(before).push((key@, value@)));
                },
                None => {},
            }
            i = i + 1;
        }
        assert(options@.subrange(0, n as int) =~= options@);
        Ok(Conninfo { values })
    }

    /// Creates a [`Conninfo`] from what parsing a connection string gave:
    /// the options when it succeeded, else the optional error message.
    ///
    /// See [`PQconninfoParse`](https://www.postgresql.org/docs/current/libpq-connect.html#LIBPQ-PQCONNINFOPARSE)
    pub fn from_parse_result(parsed: Option<Vec<(Vec<u8>, Option<Vec<u8>>)>>, error: Option<Vec<u8>>) -> (r: PQResult<Conninfo>)
        ensures
            parsed matches Some(options) ==> (r matches Ok(info) && info@ == kept_options(options@)),
            parsed is None ==> (r matches Err(e) && e.message@ == parse_error_message(error)),
    {
        match parsed {
            Some(options) => Conninfo::from_options(&options),
            None => match error {
                None => Err(PQError::from_text("Unknown error parsing DSN string")),
                Some(e) => {
                    let mut message = String::from_str("Error parsing DSN string: ");
                    let text = to_string_lossy(e.as_slice());
                    message.append(text.as_str());
                    Err(PQError::from_message(message))
                },
            },
        }
    }

    /// The pairs of this [`Conninfo`], in order.
    pub fn iter(&self) -> (r: &[(String, String)])
        ensures
            pairs_view(r@) == self@,
    {
        self.values.as_slice()
    }

    /// The keywords and values a connection is opened with: the client
    /// encoding `UTF8` first, then every other pair in order (any client
    /// encoding given is left out).
    pub fn connection_params(&self) -> (r: (Vec<String>, Vec<String>))
        ensures
            r.0.len() == r.1.len(),
            r.0.len() == connection_params_spec(self@).len(),
            forall|i: int|
                0 <= i < r.0.len() ==> (#[trigger] r.0@[i])@ == connection_params_spec(self@)[i].0,
            forall|i: int|
                0 <= i < r.1.len() ==> (#[trigger] r.1@[i])@ == connection_params_spec(self@)[i].1,
    {
        let encoding = String::from_str("client_encoding");
        let mut keys: Vec<String> = Vec::new();
        let mut values: Vec<String> = Vec::new();
        keys.push(String::from_str("client_encoding"));
        values.push(String::from_str("UTF8"));
        let ghost all = pairs_view(self.values@);
        let n = self.values.len();
        let mut i: usize = 0;
        while i < n
            invariant
                n == self.values.len(),
                all == pairs_view(self.values@),
                encoding@ == encoding_key(),
                i <= n,
                keys.len() == values.len(),
                keys.len() == 1 + other_params(all.subrange(0, i as int)).len(),
                keys@[0]@ == encoding_key(),
                values@[0]@ == encoding_value(),
                forall|k: int|
                    1 <= k < keys.len() ==> (#[trigger] keys@[k])@ == other_params(
                        all.subrange(0, i as int),
                    )[k - 1].0 && values@[k]@ == other_params(all.subrange(0, i as int))[k - 1].1,
            decreases n - i,
        {
            assert(all.subrange(0, i + 1).drop_last() =~= all.subrange(0, i as int));
            assert(all.subrange(0, i + 1).last() == pair_view(self.values@[i as int]));
            let key = &self.values[i].0;
            let value = &self.values[i].1;
            if *key == encoding {
            } else {
                keys.push(key.clone());
                values.push(value.clone());
            }
            i = i + 1;
        }
        assert(all.subrange(0, n as int) =~= all);
        assert(all == self@);
        assert forall|k: int| 0 <= k < keys.len() implies (#[trigger] keys@[k])@
            == connection_params_spec(self@)[k].0 && values@[k]@ == connection_params_spec(
            self@,
        )[k].1 by {
            let spec = connection_params_spec(self@);
            let other = other_params(all.subrange(0, n as int));
            assert(other == other_params(self@));
            if k >= 1 {
                assert(spec[k] == other[k - 1]);
                assert(keys@[k]@ == other[k - 1].0);
                assert(values@[k]@ == other[k - 1].1);
            }
        }
        assert forall|k: int| 0 <= k < values.len() implies (#[trigger] values@[k])@
            == connection_params_spec(self@)[k].1 by {
            assert(keys@[k]@ == connection_params_spec(self@)[k].0);
        }
        (keys, values)
    }
}

/// Opening a connection always sets the client encoding to `UTF8`, exactly
/// once and first; every other option is kept, in order.
pub proof fn connection_params_law(values: Seq<(Seq<char>, Seq<char>)>)
    ensures
        connection_params_spec(values)[0] == (encoding_key(), encoding_value()),
        forall|i: int|
            1 <= i < connection_params_spec(values).len() ==> (#[trigger] connection_params_spec(
                values,
            )[i]).0 != encoding_key(),
        forall|j: int|
            0 <= j < values.len() && values[j].0 != encoding_key() ==> other_params(
                values,
            ).contains(#[trigger] values[j]),
        other_params(values).len() <= values.len(),
{
    lemma_other_params(values);
}

proof fn lemma_other_params(values: Seq<(Seq<char>, Seq<char>)>)
    ensures
        forall|i: int|
            0 <= i < other_params(values).len() ==> (#[trigger] other_params(values)[i]).0
                != encoding_key(),
        forall|j: int|
            0 <= j < values.len() && values[j].0 != encoding_key() ==> other_params(
                values,
            ).contains(#[trigger] values[j]),
        other_params(values).len() <= values.len(),
    decreases values.len(),
{
    if values.len() > 0 {
        let init = values.drop_last();
        lemma_other_params(init);
        assert forall|j: int|
            0 <= j < values.len() && values[j].0 != encoding_key() implies other_params(
            values,
        ).contains(#[trigger] values[j]) by {
            if j < values.len() - 1 {
                assert(init[j] == values[j]);
                assert(other_params(init).contains(init[j]));
                let k = choose|k: int| 0 <= k < other_params(init).len() && other_params(init)[k] == init[j];
                if values.last().0 != encoding_key() {
                    assert(other_params(values)[k] == values[j]);
                }
            } else {
                let rest = other_params(init);
                assert(other_params(values)[rest.len() as int] == values[j]);
            }
        }
    }
}

} // verus!

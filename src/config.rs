use vstd::prelude::*;
use crate::args::{CliArgs, Mode};

verus! {

#[verifier::external_type_specification]
#[verifier::external_body]
pub struct ExConfig(zenoh::Config);

/// The JSON text that serde_json writes for the string `s`.
pub uninterp spec fn json_of_str(s: Seq<char>) -> Seq<char>;

/// The compact JSON text of the array of strings `v`: each string as
/// `json_of_str` writes it, separated by commas, in brackets.
pub open spec fn json_of_str_array(v: Seq<Seq<char>>) -> Seq<char> {
    seq!['['] + json_array_elements(v) + seq![']']
}

/// The strings of `v` in JSON, separated by commas.
pub open spec fn json_array_elements(v: Seq<Seq<char>>) -> Seq<char>
    decreases v.len(),
{
    if v.len() == 0 {
        Seq::empty()
    } else if v.len() == 1 {
        json_of_str(v[0])
    } else {
        json_of_str(v[0]) + seq![','] + json_array_elements(v.drop_first())
    }
}

/// A character that serde_json writes into a JSON string as it is.
pub open spec fn json_verbatim_char(c: char) -> bool {
    c != '"' && c != '\\' && c >= ' '
}

/// Relies on `serde_json::Value::from(&str)` and the compact `Display` of
/// `serde_json::Value`: the string in quotes, escaped where needed.
#[verifier::external_body]
fn json_string(s: &str) -> (r: String)
    ensures
        r@ == json_of_str(s@),
        (forall|i: int| 0 <= i < s@.len() ==> json_verbatim_char(#[trigger] s@[i])) ==> r@ == seq![
            '"',
        ] + s@ + seq!['"'],
{
    serde_json::Value::from(s).to_string()
}

/// Relies on `serde_json::Value::from(Vec<String>)` and the compact `Display`
/// of `serde_json::Value`: `[`, each string as a JSON string, separated by
/// `,`, then `]`.
#[verifier::external_body]
fn json_string_array(v: &Vec<String>) -> (r: String)
    ensures
        r@ == json_of_str_array(v@.map_values(|s: String| s@)),
{
    serde_json::Value::from(v.clone()).to_string()
}

/// Relies on `str::split_once` with a `char` pattern: it splits at the first
/// colon, which it drops, or returns `None` where there is none.
#[verifier::external_body]
fn split_at_colon(s: &str) -> (r: Option<(&str, &str)>)
    ensures
        r is None <==> !s@.contains(':'),
        r matches Some((k, v)) ==> s@ == k@ + seq![':'] + v@ && !k@.contains(':'),
{
    s.split_once(':')
}

/// One attempt to change the session configuration: the path, the JSON5
/// value, and whether zenoh took it.
pub type Attempt = (Seq<char>, Seq<char>, bool);

/// A zenoh session configuration, with the record of every change that was
/// asked of it through this library.
pub struct SessionConfig {
    inner: zenoh::Config,
    /// Each `insert_json5` call made on this configuration, in order.
    record: Ghost<Seq<Attempt>>,
}

impl SessionConfig {
    /// Each `insert_json5` call made on this configuration, in order.
    pub closed spec fn attempts(&self) -> Seq<Attempt> {
        self.record@
    }

    /// Starts from `config`, with no change recorded yet.
    pub fn new(config: zenoh::Config) -> (r: SessionConfig)
        ensures
            r.attempts() == Seq::<Attempt>::empty(),
    {
        SessionConfig { inner: config, record: Ghost(Seq::empty()) }
    }

    /// The configuration, with all changes made so far.
    pub fn into_inner(self) -> zenoh::Config {
        self.inner
    }

    /// Asks zenoh to put the JSON5 `value` at the configuration path `key`;
    /// `true` where it took it. Either way the attempt is recorded.
    pub fn insert_json5(&mut self, key: &str, value: &str) -> (r: bool)
        ensures
            final(self).attempts() == old(self).attempts().push((key@, value@, r)),
    {
        let r = zenoh_insert_json5(&mut self.inner, key, value);
        self.record = Ghost(self.record@.push((key@, value@, r)));
        r
    }
}

/// Relies on `zenoh::Config::insert_json5`: `true` where zenoh took `value`
/// at the configuration path `key`.
#[verifier::external_body]
fn zenoh_insert_json5(config: &mut zenoh::Config, key: &str, value: &str) -> bool {
    config.insert_json5(key, value).is_ok()
}

/// One change to the session configuration: the JSON5 `value` to put at the
/// slash-separated path `key`.
#[derive(Clone, Debug, PartialEq, Eq)]
pub struct ConfigEdit {
    pub key: String,
    pub value: String,
}

impl ConfigEdit {
    pub open spec fn view(&self) -> (Seq<char>, Seq<char>) {
        (self.key@, self.value@)
    }
}

/// Why the session configuration could not be built.
#[derive(Clone, Debug, PartialEq, Eq)]
pub enum ConfigError {
    /// A `--cfg` argument without a colon.
    MissingColon(String),
    /// A `--cfg` argument whose key, before the first colon, is empty.
    EmptyKey(String),
    /// zenoh refused `value` at `key`.
    Rejected { key: String, value: String },
}

/// `s` is `key:value`, split at its first colon.
pub open spec fn splits_at_first_colon(s: Seq<char>, key: Seq<char>, value: Seq<char>) -> bool {
    s == key + seq![':'] + value && !key.contains(':')
}

/// The `--cfg` argument `s` can be applied: it holds a colon, with text before it.
pub open spec fn override_well_formed(s: Seq<char>) -> bool {
    s.contains(':') && s[0] != ':'
}

/// The changes that the dedicated flags ask for, before the `--cfg` ones.
pub open spec fn flag_edits(args: CliArgs) -> Seq<(Seq<char>, Seq<char>)> {
    let mode = match args.mode {
        Some(m) => seq![("mode"@, json_of_str(m.spec_name()))],
        None => Seq::empty(),
    };
    let connect = if args.connect@.len() > 0 {
        seq![("connect/endpoints"@, json_of_str_array(args.connect@.map_values(|s: String| s@)))]
    } else {
        Seq::empty()
    };
    let listen = if args.listen@.len() > 0 {
        seq![("listen/endpoints"@, json_of_str_array(args.listen@.map_values(|s: String| s@)))]
    } else {
        Seq::empty()
    };
    let scouting = if args.no_multicast_scouting {
        seq![("scouting/multicast/enabled"@, "false"@)]
    } else {
        Seq::empty()
    };
    mode + connect + listen + scouting
}

/// The key and value of the `--cfg` argument `s`: what stands before its
/// first colon, and what stands after it.
pub open spec fn split_override(s: Seq<char>) -> (Seq<char>, Seq<char>)
    decreases s.len(),
{
    if s.len() == 0 {
        (Seq::empty(), Seq::empty())
    } else if s[0] == ':' {
        (Seq::empty(), s.drop_first())
    } else {
        let rest = split_override(s.drop_first());
        (seq![s[0]] + rest.0, rest.1)
    }
}

/// The only way to write `s` as a colon-free key, a colon and a value is
/// the split at its first colon.
pub proof fn lemma_first_colon_split_unique(s: Seq<char>, key: Seq<char>, value: Seq<char>)
    requires
        splits_at_first_colon(s, key, value),
    ensures
        split_override(s) == (key, value),
    decreases key.len(),
{
    if key.len() == 0 {
        assert(s[0] == ':');
        assert(s.drop_first() =~= value);
    } else {
        assert(s[0] == key[0]);
        assert(key.contains(key[0]));
        let k2 = key.drop_first();
        assert(s.drop_first() =~= k2 + seq![':'] + value);
        assert forall|c: char| !k2.contains(c) || c != ':' by {
            if k2.contains(c) {
                let i = choose|i: int| 0 <= i < k2.len() && k2[i] == c;
                assert(key[i + 1] == c);
            }
        }
        lemma_first_colon_split_unique(s.drop_first(), k2, value);
        assert(seq![s[0]] + k2 =~= key);
    }
}

/// Splits one `--cfg` argument into a configuration change.
pub fn parse_override(s: &String) -> (r: Result<ConfigEdit, ConfigError>)
    ensures
        !s@.contains(':') ==> (r matches Err(ConfigError::MissingColon(t)) && t@ == s@),
        s@.contains(':') && s@[0] == ':' ==> (r matches Err(ConfigError::EmptyKey(t)) && t@ == s@),
        override_well_formed(s@) ==> (r matches Ok(e) && splits_at_first_colon(s@, e.key@, e.value@)
            && e@ == split_override(s@)),
{
    match split_at_colon(s.as_str()) {
        None => Err(ConfigError::MissingColon(s.clone())),
        Some((k, v)) => {
            if k.is_empty() {
                assert(s@[0] == ':');
                Err(ConfigError::EmptyKey(s.clone()))
            } else {
                assert(s@[0] == k@[0]);
                assert(k@.contains(k@[0]));
                proof {
                    lemma_first_colon_split_unique(s@, k@, v@);
                }
                Ok(ConfigEdit { key: k.to_owned(), value: v.to_owned() })
            }
        },
    }
}

/// `e` is the error that `parse_override` reports for the malformed `s`.
pub open spec fn override_error(e: ConfigError, s: Seq<char>) -> bool {
    if !s.contains(':') {
        e matches ConfigError::MissingColon(t) && t@ == s
    } else {
        s[0] == ':' && (e matches ConfigError::EmptyKey(t) && t@ == s)
    }
}

/// The changes that `edits` makes, in order.
pub open spec fn edits_view(edits: Seq<ConfigEdit>) -> Seq<(Seq<char>, Seq<char>)> {
    edits.map_values(|e: ConfigEdit| e@)
}

/// Every `--cfg` argument of `args` is well formed.
pub open spec fn overrides_well_formed(args: CliArgs) -> bool {
    forall|j: int| 0 <= j < args.cfg@.len() ==> override_well_formed(#[trigger] args.cfg@[j]@)
}

/// `e` is the error for the first malformed `--cfg` argument of `args`.
pub open spec fn first_override_error(args: CliArgs, e: ConfigError) -> bool {
    exists|j: int|
        0 <= j < args.cfg@.len() && override_error(e, #[trigger] args.cfg@[j]@) && forall|k: int|
            0 <= k < j ==> override_well_formed(#[trigger] args.cfg@[k]@)
}

/// All the changes that `args` asks for, in the order they are made: the
/// dedicated flags first, then each `--cfg` argument.
pub open spec fn planned_edits(args: CliArgs) -> Seq<(Seq<char>, Seq<char>)> {
    flag_edits(args) + args.cfg@.map_values(|s: String| split_override(s@))
}

/// The attempts made for `edits` when zenoh takes each of them.
pub open spec fn accepted(edits: Seq<(Seq<char>, Seq<char>)>) -> Seq<Attempt> {
    edits.map_values(|e: (Seq<char>, Seq<char>)| (e.0, e.1, true))
}

/// The attempts made for `edits` when zenoh takes those before `i` and
/// refuses the one at `i`.
pub open spec fn refused_at(edits: Seq<(Seq<char>, Seq<char>)>, i: int) -> Seq<Attempt> {
    accepted(edits.subrange(0, i)).push((edits[i].0, edits[i].1, false))
}

/// What applying `edits` returns, given the attempts `made` that it caused.
pub open spec fn applied_outcome(
    edits: Seq<(Seq<char>, Seq<char>)>,
    made: Seq<Attempt>,
    r: Result<(), ConfigError>,
) -> bool {
    ||| r is Ok && made == accepted(edits)
    ||| exists|i: int|
        0 <= i < edits.len() && made == refused_at(edits, i) && (r matches Err(
            ConfigError::Rejected { key, value },
        ) && (key@, value@) == #[trigger] edits[i])
}

impl CliArgs {
    /// The configuration changes that the command line asks for: mode,
    /// connect and listen endpoints and multicast scouting first, then each
    /// `--cfg` argument in its order. The first malformed `--cfg` argument is
    /// reported instead.
    pub fn config_edits(&self) -> (r: Result<Vec<ConfigEdit>, ConfigError>)
        ensures
            r is Ok <==> overrides_well_formed(*self),
            r matches Ok(es) ==> edits_view(es@) == planned_edits(*self),
            r matches Err(e) ==> first_override_error(*self, e),
    {
        let mut edits: Vec<ConfigEdit> = Vec::new();
        if let Some(m) = self.mode {
            let value = json_string(m.to_str());
            edits.push(ConfigEdit { key: "mode".to_owned(), value });
        }
        if self.connect.len() > 0 {
            let value = json_string_array(&self.connect);
            edits.push(ConfigEdit { key: "connect/endpoints".to_owned(), value });
        }
        if self.listen.len() > 0 {
            let value = json_string_array(&self.listen);
            edits.push(ConfigEdit { key: "listen/endpoints".to_owned(), value });
        }
        if self.no_multicast_scouting {
            edits.push(
                ConfigEdit { key: "scouting/multicast/enabled".to_owned(), value: "false".to_owned() },
            );
        }
        let ghost n = edits@.len();
        let ghost overrides = self.cfg@.map_values(|s: String| split_override(s@));
        assert(edits_view(edits@) =~= flag_edits(*self));
        let mut i: usize = 0;
        while i < self.cfg.len()
            invariant
                i <= self.cfg@.len(),
                n == flag_edits(*self).len(),
                overrides == self.cfg@.map_values(|s: String| split_override(s@)),
                edits_view(edits@) =~= flag_edits(*self) + overrides.subrange(0, i as int),
                forall|k: int| 0 <= k < i ==> override_well_formed(#[trigger] self.cfg@[k]@),
            decreases self.cfg@.len() - i,
        {
            let edit = match parse_override(&self.cfg[i]) {
                Ok(e) => e,
                Err(e) => {
                    assert(override_error(e, self.cfg@[i as int]@));
                    return Err(e);
                },
            };
            let ghost before = edits@;
            edits.push(edit);
            assert(edits_view(edits@) =~= edits_view(before).push(edit@));
            assert(overrides.subrange(0, i + 1) =~= overrides.subrange(0, i as int).push(
                overrides[i as int],
            ));
            i = i + 1;
        }
        assert(overrides.subrange(0, i as int) =~= overrides);
        Ok(edits)
    }
}

/// Applies `edits` to `config` in order, and stops at the first one that
/// zenoh refuses, which it reports.
pub fn apply_config_edits(config: &mut SessionConfig, edits: &Vec<ConfigEdit>) -> (r: Result<
    (),
    ConfigError,
>)
    ensures
        exists|made: Seq<Attempt>|
            #![trigger applied_outcome(edits_view(edits@), made, r)]
            final(config).attempts() == old(config).attempts() + made && applied_outcome(
                edits_view(edits@),
                made,
                r,
            ),
{
    let ghost start = config.attempts();
    let ghost ev = edits_view(edits@);
    let mut i: usize = 0;
    while i < edits.len()
        invariant
            i <= edits@.len(),
            ev == edits_view(edits@),
            start == old(config).attempts(),
            config.attempts() == start + accepted(ev.subrange(0, i as int)),
        decreases edits@.len() - i,
    {
        let edit = &edits[i];
        let ghost before = config.attempts();
        let ok = config.insert_json5(edit.key.as_str(), edit.value.as_str());
        if !ok {
            let key = edit.key.clone();
            let value = edit.value.clone();
            let r = Err(ConfigError::Rejected { key, value });
            assert(ev[i as int] == edits@[i as int]@);
            assert(config.attempts() =~= start + refused_at(ev, i as int));
            assert(r matches Err(ConfigError::Rejected { key, value }) && (key@, value@) == ev[i as int]);
            assert(applied_outcome(ev, refused_at(ev, i as int), r));
            return r;
        }
        assert(accepted(ev.subrange(0, i + 1)) =~= accepted(ev.subrange(0, i as int)).push(
            (ev[i as int].0, ev[i as int].1, true),
        ));
        i = i + 1;
    }
    assert(ev.subrange(0, i as int) =~= ev);
    assert(config.attempts() =~= start + accepted(ev));
    assert(applied_outcome(ev, accepted(ev), Ok(())));
    Ok(())
}

impl CliArgs {
    /// Builds the session configuration on top of `config`: computes the
    /// changes that the command line asks for and hands them to zenoh in
    /// order, stopping at the first one that zenoh refuses. A malformed
    /// `--cfg` argument is reported before anything is changed.
    pub fn config(&self, config: &mut SessionConfig) -> (r: Result<(), ConfigError>)
        ensures
            (r is Err && !(r->Err_0 is Rejected)) <==> !overrides_well_formed(*self),
            !overrides_well_formed(*self) ==> first_override_error(*self, r->Err_0)
                && final(config).attempts() == old(config).attempts(),
            overrides_well_formed(*self) ==> exists|made: Seq<Attempt>|
                final(config).attempts() == old(config).attempts() + made && applied_outcome(
                    planned_edits(*self),
                    made,
                    r,
                ),
    {
        let edits = self.config_edits()?;
        apply_config_edits(config, &edits)
    }
}

} // verus!

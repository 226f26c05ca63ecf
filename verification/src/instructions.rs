//! The instruction entities: one type per build-step kind, each with a
//! spec-level rendering function and a verified `render` method producing
//! exactly that text, with no trailing line terminator.

use vstd::prelude::*;
use vstd::string::StringExecFns;

use crate::text::lemma_join_newlines_escaped;
use crate::text::lemma_join_piece_at;
use crate::text::lemma_kv_fragment_escaped;
use crate::text::lemma_newlines_escaped_concat;
use crate::text::lemma_no_newline_escaped;
use crate::text::spec_join;
use crate::text::spec_join_offset;
use crate::text::spec_kv;
use crate::text::spec_newlines_escaped;
use crate::text::spec_no_newline;
use crate::text::kv_keys_unique;
use crate::text::kv_view;
use crate::text::render_i32;
use crate::text::render_kv_join;
use crate::text::render_quoted_list;
use crate::text::render_u16;
use crate::text::spec_decimal;
use crate::text::spec_decimal_signed;
use crate::text::spec_escape_newlines;
use crate::text::spec_kv_join;
use crate::text::spec_kv_upsert;
use crate::text::spec_quoted_list;
use crate::text::escape_newlines;
use crate::text::kv_upsert;

verus! {

/// Pins a base image either to a tag or to a digest; at most one of the two
/// can be set on a [`From`] instruction.
#[derive(Debug, Clone)]
pub enum TagOrDigest {
    Tag(String),
    Digest(String),
}

/// The base-image reference: `FROM <image>[:<tag>|@<digest>] [AS <name>]`.
#[derive(Debug, Clone)]
pub struct From {
    pub image: String,
    pub tag_or_digest: Option<TagOrDigest>,
    pub name: Option<String>,
}

impl From {
    /// The exact text this instruction renders to.
    pub open spec fn spec_render(&self) -> Seq<char> {
        let pinned = match self.tag_or_digest {
            Some(TagOrDigest::Tag(t)) => "FROM "@ + self.image@ + ":"@ + t@,
            Some(TagOrDigest::Digest(d)) => "FROM "@ + self.image@ + "@"@ + d@,
            None => "FROM "@ + self.image@,
        };
        match self.name {
            Some(n) => pinned + " AS "@ + n@,
            None => pinned,
        }
    }

    /// The instruction's textual line.
    pub fn render(&self) -> (r: String)
        ensures
            r@ == self.spec_render(),
    {
        let mut r = String::from_str("FROM ");
        r.append(self.image.as_str());
        match &self.tag_or_digest {
            Some(TagOrDigest::Tag(t)) => {
                r.append(":");
                r.append(t.as_str());
            },
            Some(TagOrDigest::Digest(d)) => {
                r.append("@");
                r.append(d.as_str());
            },
            None => {},
        }
        match &self.name {
            Some(n) => {
                r.append(" AS ");
                r.append(n.as_str());
            },
            None => {},
        }
        proof {
            assert(r@ =~= self.spec_render());
        }
        r
    }
}

/// A shell-form build step: `RUN ["arg", ...]`.
#[derive(Debug, Clone)]
pub struct Run {
    pub params: Vec<String>,
}

impl Run {
    /// The exact text this instruction renders to.
    pub open spec fn spec_render(&self) -> Seq<char> {
        "RUN "@ + spec_quoted_list(self.params.deep_view())
    }

    pub fn from(params: Vec<String>) -> (r: Run)
        ensures
            r.params == params,
    {
        Run { params }
    }

    /// The instruction's textual line.
    pub fn render(&self) -> (r: String)
        ensures
            r@ == self.spec_render(),
    {
        let list = render_quoted_list(&self.params);
        String::from_str("RUN ").concat(list.as_str())
    }
}

/// The default command: `CMD ["arg", ...]`.
#[derive(Debug, Clone)]
pub struct Cmd {
    pub params: Vec<String>,
}

impl Cmd {
    /// The exact text this instruction renders to.
    pub open spec fn spec_render(&self) -> Seq<char> {
        "CMD "@ + spec_quoted_list(self.params.deep_view())
    }

    pub fn from(params: Vec<String>) -> (r: Cmd)
        ensures
            r.params == params,
    {
        Cmd { params }
    }

    /// The instruction's textual line.
    pub fn render(&self) -> (r: String)
        ensures
            r@ == self.spec_render(),
    {
        let list = render_quoted_list(&self.params);
        String::from_str("CMD ").concat(list.as_str())
    }
}

/// The entry point: `ENTRYPOINT ["arg", ...]`.
#[derive(Debug, Clone)]
pub struct EntryPoint {
    pub params: Vec<String>,
}

impl EntryPoint {
    /// The exact text this instruction renders to.
    pub open spec fn spec_render(&self) -> Seq<char> {
        "ENTRYPOINT "@ + spec_quoted_list(self.params.deep_view())
    }

    pub fn from(params: Vec<String>) -> (r: EntryPoint)
        ensures
            r.params == params,
    {
        EntryPoint { params }
    }

    /// The instruction's textual line.
    pub fn render(&self) -> (r: String)
        ensures
            r@ == self.spec_render(),
    {
        let list = render_quoted_list(&self.params);
        String::from_str("ENTRYPOINT ").concat(list.as_str())
    }
}

/// Mount points: `VOLUME ["path", ...]`.
#[derive(Debug, Clone)]
pub struct Volume {
    pub paths: Vec<String>,
}

impl Volume {
    /// The exact text this instruction renders to.
    pub open spec fn spec_render(&self) -> Seq<char> {
        "VOLUME "@ + spec_quoted_list(self.paths.deep_view())
    }

    pub fn from(paths: Vec<String>) -> (r: Volume)
        ensures
            r.paths == paths,
    {
        Volume { paths }
    }

    /// The instruction's textual line.
    pub fn render(&self) -> (r: String)
        ensures
            r@ == self.spec_render(),
    {
        let list = render_quoted_list(&self.paths);
        String::from_str("VOLUME ").concat(list.as_str())
    }
}

/// The shell override: `SHELL ["executable", ...]`.
#[derive(Debug, Clone)]
pub struct Shell {
    pub params: Vec<String>,
}

impl Shell {
    /// The exact text this instruction renders to.
    pub open spec fn spec_render(&self) -> Seq<char> {
        "SHELL "@ + spec_quoted_list(self.params.deep_view())
    }

    pub fn from(params: Vec<String>) -> (r: Shell)
        ensures
            r.params == params,
    {
        Shell { params }
    }

    /// The instruction's textual line.
    pub fn render(&self) -> (r: String)
        ensures
            r@ == self.spec_render(),
    {
        let list = render_quoted_list(&self.params);
        String::from_str("SHELL ").concat(list.as_str())
    }
}

/// Image metadata entries: `LABEL k1="v1" ...` with unique keys; values are
/// stored with newlines already escaped to line continuations.
#[derive(Debug, Clone)]
pub struct Label {
    pairs: Vec<(String, String)>,
}

/// The separator between label entries: a line continuation aligned under
/// the keyword.
pub open spec fn label_separator() -> Seq<char> {
    " \\\n      "@
}

impl Label {
    /// The key/value entries in insertion order; each value is stored with
    /// its newlines already escaped.
    pub closed spec fn entries(&self) -> Seq<(Seq<char>, Seq<char>)> {
        kv_view(self.pairs@)
    }

    /// No two entries share a key.
    pub open spec fn wf(&self) -> bool {
        kv_keys_unique(self.entries())
    }

    /// The exact text this instruction renders to.
    pub open spec fn spec_render(&self) -> Seq<char> {
        "LABEL "@ + spec_kv_join(self.entries(), label_separator())
    }

    /// A label with the single entry `key`/`value`; newlines in the value
    /// are escaped to line continuations.
    pub fn from_pair(key: &str, value: &str) -> (r: Label)
        ensures
            r.wf(),
            r.entries() == seq![(key@, spec_escape_newlines(value@))],
    {
        let k = key.to_owned();
        let v = escape_newlines(value);
        let mut pairs: Vec<(String, String)> = Vec::new();
        pairs.push((k, v));
        let r = Label { pairs };
        proof {
            assert(r.entries() =~= seq![(key@, spec_escape_newlines(value@))]);
        }
        r
    }

    /// Adds an entry; a later value for an existing key replaces the earlier
    /// one (last write wins), so keys stay unique.
    pub fn insert(&mut self, key: &str, value: &str)
        requires
            old(self).wf(),
        ensures
            final(self).wf(),
            final(self).entries() == spec_kv_upsert(
                old(self).entries(),
                key@,
                spec_escape_newlines(value@),
            ),
    {
        let k = key.to_owned();
        let v = escape_newlines(value);
        kv_upsert(&mut self.pairs, k, v);
    }

    /// The instruction's textual line(s).
    pub fn render(&self) -> (r: String)
        ensures
            r@ == self.spec_render(),
    {
        let joined = render_kv_join(&self.pairs, " \\\n      ");
        String::from_str("LABEL ").concat(joined.as_str())
    }
}

/// Environment variables: `ENV k1="v1" k2="v2" ...` with unique keys; values
/// are stored with newlines already escaped.
#[derive(Debug, Clone)]
pub struct Env {
    pairs: Vec<(String, String)>,
}

impl Env {
    /// The key/value entries in insertion order; each value is stored with
    /// its newlines already escaped.
    pub closed spec fn entries(&self) -> Seq<(Seq<char>, Seq<char>)> {
        kv_view(self.pairs@)
    }

    /// No two entries share a key.
    pub open spec fn wf(&self) -> bool {
        kv_keys_unique(self.entries())
    }

    /// The exact text this instruction renders to: entries joined by single
    /// spaces.
    pub open spec fn spec_render(&self) -> Seq<char> {
        "ENV "@ + spec_kv_join(self.entries(), " "@)
    }

    /// An environment with the single entry `key`/`value`; newlines in the
    /// value are escaped to line continuations.
    pub fn from_pair(key: &str, value: &str) -> (r: Env)
        ensures
            r.wf(),
            r.entries() == seq![(key@, spec_escape_newlines(value@))],
    {
        let k = key.to_owned();
        let v = escape_newlines(value);
        let mut pairs: Vec<(String, String)> = Vec::new();
        pairs.push((k, v));
        let r = Env { pairs };
        proof {
            assert(r.entries() =~= seq![(key@, spec_escape_newlines(value@))]);
        }
        r
    }

    /// Adds an entry; a later value for an existing key replaces the earlier
    /// one (last write wins), so keys stay unique.
    pub fn insert(&mut self, key: &str, value: &str)
        requires
            old(self).wf(),
        ensures
            final(self).wf(),
            final(self).entries() == spec_kv_upsert(
                old(self).entries(),
                key@,
                spec_escape_newlines(value@),
            ),
    {
        let k = key.to_owned();
        let v = escape_newlines(value);
        kv_upsert(&mut self.pairs, k, v);
    }

    /// The instruction's textual line.
    pub fn render(&self) -> (r: String)
        ensures
            r@ == self.spec_render(),
    {
        let joined = render_kv_join(&self.pairs, " ");
        String::from_str("ENV ").concat(joined.as_str())
    }
}

/// The deprecated author field: `MAINTAINER <name>`; semantically a label
/// under the reserved `maintainer` key.
#[derive(Debug, Clone)]
pub struct Maintainer {
    pub name: String,
}

impl Maintainer {
    /// The exact text this instruction renders to.
    pub open spec fn spec_render(&self) -> Seq<char> {
        "MAINTAINER "@ + self.name@
    }

    pub fn from(name: &str) -> (r: Maintainer)
        ensures
            r.name@ == name@,
    {
        Maintainer { name: name.to_owned() }
    }

    /// Whether `other` carries this maintainer under the reserved
    /// `maintainer` key.
    pub open spec fn spec_matches_label(&self, other: &Label) -> bool {
        exists|i: int|
            0 <= i < other.entries().len() && other.entries()[i].0 == "maintainer"@
                && other.entries()[i].1 == self.name@
    }

    /// The one-directional semantic alias between the deprecated maintainer
    /// field and a label under the reserved `maintainer` key.
    pub fn matches_label(&self, other: &Label) -> (r: bool)
        ensures
            r == self.spec_matches_label(other),
    {
        let reserved = String::from_str("maintainer");
        let mut i: usize = 0;
        while i < other.pairs.len()
            invariant
                i <= other.pairs.len(),
                reserved@ == "maintainer"@,
                other.entries().len() == other.pairs.len(),
                forall|j: int|
                    0 <= j < i ==> !(other.entries()[j].0 == "maintainer"@
                        && other.entries()[j].1 == self.name@),
            decreases other.pairs.len() - i,
        {
            if pairs_key_is(&other.pairs, i, &reserved) && pairs_value_is(
                &other.pairs,
                i,
                &self.name,
            ) {
                proof {
                    assert(other.entries()[i as int].0 == "maintainer"@);
                    assert(other.entries()[i as int].1 == self.name@);
                }
                return true;
            }
            i += 1;
        }
        false
    }

    /// The instruction's textual line.
    pub fn render(&self) -> (r: String)
        ensures
            r@ == self.spec_render(),
    {
        String::from_str("MAINTAINER ").concat(self.name.as_str())
    }
}

fn pairs_key_is(pairs: &Vec<(String, String)>, i: usize, key: &String) -> (r: bool)
    requires
        i < pairs.len(),
    ensures
        r == (pairs@[i as int].0@ == key@),
{
    pairs[i].0 == *key
}

fn pairs_value_is(pairs: &Vec<(String, String)>, i: usize, value: &String) -> (r: bool)
    requires
        i < pairs.len(),
    ensures
        r == (pairs@[i as int].1@ == value@),
{
    pairs[i].1 == *value
}

/// An exposed port: `EXPOSE <port>` or `EXPOSE <port>/<proto>`. The port is
/// a 16-bit value by construction; an out-of-range number is a type error,
/// not a silent truncation.
#[derive(Debug, Clone)]
pub struct Expose {
    pub port: u16,
    pub proto: Option<String>,
}

impl Expose {
    /// The exact text this instruction renders to; the protocol is omitted
    /// when absent.
    pub open spec fn spec_render(&self) -> Seq<char> {
        "EXPOSE "@ + spec_decimal(self.port as nat) + (match self.proto {
            Some(p) => "/"@ + p@,
            None => Seq::empty(),
        })
    }

    pub fn from(port: u16) -> (r: Expose)
        ensures
            r.port == port,
            r.proto is None,
    {
        Expose { port, proto: None }
    }

    /// The instruction's textual line.
    pub fn render(&self) -> (r: String)
        ensures
            r@ == self.spec_render(),
    {
        let mut r = String::from_str("EXPOSE ");
        let digits = render_u16(self.port);
        r.append(digits.as_str());
        match &self.proto {
            Some(p) => {
                r.append("/");
                r.append(p.as_str());
            },
            None => {},
        }
        proof {
            assert(r@ =~= self.spec_render());
        }
        r
    }
}

/// The user (and optional group) later steps run as: `USER <user>[:<group>]`.
#[derive(Debug, Clone)]
pub struct User {
    pub user: String,
    pub group: Option<String>,
}

impl User {
    /// The `user[:group]` fragment, shared with the ownership flag of file
    /// copy instructions.
    pub open spec fn spec_name_group(&self) -> Seq<char> {
        self.user@ + (match self.group {
            Some(g) => ":"@ + g@,
            None => Seq::empty(),
        })
    }

    /// The exact text this instruction renders to.
    pub open spec fn spec_render(&self) -> Seq<char> {
        "USER "@ + self.spec_name_group()
    }

    /// The instruction's textual line.
    pub fn render(&self) -> (r: String)
        ensures
            r@ == self.spec_render(),
    {
        let mut r = String::from_str("USER ");
        append_name_group(&mut r, self);
        proof {
            assert(r@ =~= self.spec_render());
        }
        r
    }
}

fn append_name_group(r: &mut String, u: &User)
    ensures
        final(r)@ == old(r)@ + u.spec_name_group(),
{
    r.append(u.user.as_str());
    match &u.group {
        Some(g) => {
            r.append(":");
            r.append(g.as_str());
        },
        None => {},
    }
    proof {
        assert(r@ =~= old(r)@ + u.spec_name_group());
    }
}

/// The rendered ownership flag: `--chown=<user>[:<group>] ` when set,
/// nothing when not.
pub open spec fn spec_chown_flag(chown: Option<User>) -> Seq<char> {
    match chown {
        Some(u) => "--chown="@ + u.spec_name_group() + " "@,
        None => Seq::empty(),
    }
}

fn append_chown_flag(r: &mut String, chown: &Option<User>)
    ensures
        final(r)@ == old(r)@ + spec_chown_flag(*chown),
{
    match chown {
        Some(u) => {
            r.append("--chown=");
            append_name_group(r, u);
            r.append(" ");
            proof {
                assert(r@ =~= old(r)@ + spec_chown_flag(*chown));
            }
        },
        None => {
            proof {
                assert(r@ =~= old(r)@ + spec_chown_flag(*chown));
            }
        },
    }
}

/// Both copy-like instructions quote their two path literals.
pub open spec fn spec_quoted_paths(src: Seq<char>, dst: Seq<char>) -> Seq<char> {
    "\""@ + src + "\" \""@ + dst + "\""@
}

fn append_quoted_paths(r: &mut String, src: &String, dst: &String)
    ensures
        final(r)@ == old(r)@ + spec_quoted_paths(src@, dst@),
{
    r.append("\"");
    r.append(src.as_str());
    r.append("\" \"");
    r.append(dst.as_str());
    r.append("\"");
    proof {
        assert(r@ =~= old(r)@ + spec_quoted_paths(src@, dst@));
    }
}

/// A file addition: `ADD [--chown=...] "<src>" "<dst>"`.
#[derive(Debug, Clone)]
pub struct Add {
    pub src: String,
    pub dst: String,
    pub chown: Option<User>,
}

impl Add {
    /// The exact text this instruction renders to.
    pub open spec fn spec_render(&self) -> Seq<char> {
        "ADD "@ + spec_chown_flag(self.chown) + spec_quoted_paths(self.src@, self.dst@)
    }

    pub fn from(src: &str, dst: &str) -> (r: Add)
        ensures
            r.src@ == src@,
            r.dst@ == dst@,
            r.chown is None,
    {
        Add { src: src.to_owned(), dst: dst.to_owned(), chown: None }
    }

    /// The instruction's textual line.
    pub fn render(&self) -> (r: String)
        ensures
            r@ == self.spec_render(),
    {
        let mut r = String::from_str("ADD ");
        append_chown_flag(&mut r, &self.chown);
        append_quoted_paths(&mut r, &self.src, &self.dst);
        proof {
            assert(r@ =~= self.spec_render());
        }
        r
    }
}

/// The rendered source-stage flag of a copy: `--from=<stage> ` when set,
/// nothing when not.
pub open spec fn spec_stage_flag(stage: Option<String>) -> Seq<char> {
    match stage {
        Some(f) => "--from="@ + f@ + " "@,
        None => Seq::empty(),
    }
}

/// A file copy: `COPY [--from=...] [--chown=...] "<src>" "<dst>"`; the stage
/// flag stands before the ownership flag when both are present.
#[derive(Debug, Clone)]
pub struct Copy {
    pub src: String,
    pub dst: String,
    pub from: Option<String>,
    pub chown: Option<User>,
}

impl Copy {
    /// The exact text this instruction renders to.
    pub open spec fn spec_render(&self) -> Seq<char> {
        "COPY "@ + spec_stage_flag(self.from) + spec_chown_flag(self.chown) + spec_quoted_paths(
            self.src@,
            self.dst@,
        )
    }

    pub fn from(src: &str, dst: &str) -> (r: Copy)
        ensures
            r.src@ == src@,
            r.dst@ == dst@,
            r.from is None,
            r.chown is None,
    {
        Copy { src: src.to_owned(), dst: dst.to_owned(), from: None, chown: None }
    }

    /// The instruction's textual line.
    pub fn render(&self) -> (r: String)
        ensures
            r@ == self.spec_render(),
    {
        let mut r = String::from_str("COPY ");
        match &self.from {
            Some(f) => {
                r.append("--from=");
                r.append(f.as_str());
                r.append(" ");
            },
            None => {},
        }
        proof {
            assert(r@ =~= "COPY "@ + spec_stage_flag(self.from));
        }
        append_chown_flag(&mut r, &self.chown);
        append_quoted_paths(&mut r, &self.src, &self.dst);
        proof {
            assert(r@ =~= self.spec_render());
        }
        r
    }
}

/// The working directory: `WORKDIR "<path>"`.
#[derive(Debug, Clone)]
pub struct WorkDir {
    pub path: String,
}

impl WorkDir {
    /// The exact text this instruction renders to.
    pub open spec fn spec_render(&self) -> Seq<char> {
        "WORKDIR \""@ + self.path@ + "\""@
    }

    pub fn from(path: &str) -> (r: WorkDir)
        ensures
            r.path@ == path@,
    {
        WorkDir { path: path.to_owned() }
    }

    /// The instruction's textual line.
    pub fn render(&self) -> (r: String)
        ensures
            r@ == self.spec_render(),
    {
        let mut r = String::from_str("WORKDIR \"");
        r.append(self.path.as_str());
        r.append("\"");
        proof {
            assert(r@ =~= self.spec_render());
        }
        r
    }
}

/// A build argument: `ARG <name>="<value>"`, or `ARG <name>` without a
/// default value.
#[derive(Debug, Clone)]
pub struct Arg {
    pub name: String,
    pub value: Option<String>,
}

impl Arg {
    /// The exact text this instruction renders to.
    pub open spec fn spec_render(&self) -> Seq<char> {
        "ARG "@ + self.name@ + (match self.value {
            Some(v) => "=\""@ + v@ + "\""@,
            None => Seq::empty(),
        })
    }

    pub fn from(name: &str, value: &str) -> (r: Arg)
        ensures
            r.name@ == name@,
            r.value matches Some(v) && v@ == value@,
    {
        Arg { name: name.to_owned(), value: Some(value.to_owned()) }
    }

    /// The instruction's textual line.
    pub fn render(&self) -> (r: String)
        ensures
            r@ == self.spec_render(),
    {
        let mut r = String::from_str("ARG ");
        r.append(self.name.as_str());
        match &self.value {
            Some(v) => {
                r.append("=\"");
                r.append(v.as_str());
                r.append("\"");
            },
            None => {},
        }
        proof {
            assert(r@ =~= self.spec_render());
        }
        r
    }
}

/// The stop signal: `STOPSIGNAL <signal>`.
#[derive(Debug, Clone)]
pub struct StopSignal {
    pub signal: String,
}

impl StopSignal {
    /// The exact text this instruction renders to.
    pub open spec fn spec_render(&self) -> Seq<char> {
        "STOPSIGNAL "@ + self.signal@
    }

    pub fn from(signal: &str) -> (r: StopSignal)
        ensures
            r.signal@ == signal@,
    {
        StopSignal { signal: signal.to_owned() }
    }

    /// The instruction's textual line.
    pub fn render(&self) -> (r: String)
        ensures
            r@ == self.spec_render(),
    {
        String::from_str("STOPSIGNAL ").concat(self.signal.as_str())
    }
}

/// The rendered optional numeric flag of a health check: `<name><n> ` when
/// set, nothing when not.
pub open spec fn spec_num_flag(name: Seq<char>, v: Option<i32>) -> Seq<char> {
    match v {
        Some(n) => name + spec_decimal_signed(n as int) + " "@,
        None => Seq::empty(),
    }
}

fn append_num_flag(r: &mut String, name: &str, v: &Option<i32>)
    ensures
        final(r)@ == old(r)@ + spec_num_flag(name@, *v),
{
    match v {
        Some(n) => {
            r.append(name);
            let digits = render_i32(*n);
            r.append(digits.as_str());
            r.append(" ");
            proof {
                assert(r@ =~= old(r)@ + spec_num_flag(name@, *v));
            }
        },
        None => {
            proof {
                assert(r@ =~= old(r)@ + spec_num_flag(name@, *v));
            }
        },
    }
}

/// The container health probe: either explicitly disabled, or a check
/// command with independent optional numeric flags.
#[derive(Debug, Clone)]
pub enum HealthCheck {
    Check {
        cmd: Cmd,
        interval: Option<i32>,
        timeout: Option<i32>,
        start_period: Option<i32>,
        retries: Option<i32>,
    },
    Disabled,
}

impl HealthCheck {
    /// The exact text this instruction renders to: `HEALTHCHECK NONE` when
    /// disabled; otherwise `HEALTHCHECK` followed by each flag that is set,
    /// in the fixed interval/timeout/start-period/retries order, then the
    /// wrapped command's own rendering.
    pub open spec fn spec_render(&self) -> Seq<char> {
        match self {
            HealthCheck::Check { cmd, interval, timeout, start_period, retries } => "HEALTHCHECK "@
                + spec_num_flag("--interval="@, *interval) + spec_num_flag(
                "--timeout="@,
                *timeout,
            ) + spec_num_flag("--start-period="@, *start_period) + spec_num_flag(
                "--retries="@,
                *retries,
            ) + cmd.spec_render(),
            HealthCheck::Disabled => "HEALTHCHECK NONE"@,
        }
    }

    /// The instruction's textual line.
    pub fn render(&self) -> (r: String)
        ensures
            r@ == self.spec_render(),
    {
        match self {
            HealthCheck::Check { cmd, interval, timeout, start_period, retries } => {
                let mut r = String::from_str("HEALTHCHECK ");
                append_num_flag(&mut r, "--interval=", interval);
                append_num_flag(&mut r, "--timeout=", timeout);
                append_num_flag(&mut r, "--start-period=", start_period);
                append_num_flag(&mut r, "--retries=", retries);
                let line = cmd.render();
                r.append(line.as_str());
                proof {
                    assert(r@ =~= self.spec_render());
                }
                r
            },
            HealthCheck::Disabled => String::from_str("HEALTHCHECK NONE"),
        }
    }
}

/// A free-text remark: `# <text>`, not interpreted by the target builder.
#[derive(Debug, Clone)]
pub struct Comment {
    pub comment: String,
}

impl Comment {
    /// The exact text this instruction renders to.
    pub open spec fn spec_render(&self) -> Seq<char> {
        "# "@ + self.comment@
    }

    pub fn from(comment: &str) -> (r: Comment)
        ensures
            r.comment@ == comment@,
    {
        Comment { comment: comment.to_owned() }
    }

    /// The instruction's textual line.
    pub fn render(&self) -> (r: String)
        ensures
            r@ == self.spec_render(),
    {
        String::from_str("# ").concat(self.comment.as_str())
    }
}

/// Any build step that can stand in a document body or behind `ONBUILD`: a
/// closed union over the instruction kinds, each rendering as its own type
/// does.
#[derive(Debug, Clone)]
pub enum Instruction {
    Run(Run),
    Cmd(Cmd),
    Label(Label),
    Expose(Expose),
    Env(Env),
    Add(Add),
    Copy(Copy),
    EntryPoint(EntryPoint),
    Volume(Volume),
    User(User),
    WorkDir(WorkDir),
    Arg(Arg),
    StopSignal(StopSignal),
    HealthCheck(HealthCheck),
    Shell(Shell),
    Comment(Comment),
}

impl Instruction {
    /// The exact text the wrapped instruction renders to.
    pub open spec fn spec_render(&self) -> Seq<char> {
        match self {
            Instruction::Run(x) => x.spec_render(),
            Instruction::Cmd(x) => x.spec_render(),
            Instruction::Label(x) => x.spec_render(),
            Instruction::Expose(x) => x.spec_render(),
            Instruction::Env(x) => x.spec_render(),
            Instruction::Add(x) => x.spec_render(),
            Instruction::Copy(x) => x.spec_render(),
            Instruction::EntryPoint(x) => x.spec_render(),
            Instruction::Volume(x) => x.spec_render(),
            Instruction::User(x) => x.spec_render(),
            Instruction::WorkDir(x) => x.spec_render(),
            Instruction::Arg(x) => x.spec_render(),
            Instruction::StopSignal(x) => x.spec_render(),
            Instruction::HealthCheck(x) => x.spec_render(),
            Instruction::Shell(x) => x.spec_render(),
            Instruction::Comment(x) => x.spec_render(),
        }
    }

    /// The wrapped instruction's textual line(s).
    pub fn render(&self) -> (r: String)
        ensures
            r@ == self.spec_render(),
    {
        match self {
            Instruction::Run(x) => x.render(),
            Instruction::Cmd(x) => x.render(),
            Instruction::Label(x) => x.render(),
            Instruction::Expose(x) => x.render(),
            Instruction::Env(x) => x.render(),
            Instruction::Add(x) => x.render(),
            Instruction::Copy(x) => x.render(),
            Instruction::EntryPoint(x) => x.render(),
            Instruction::Volume(x) => x.render(),
            Instruction::User(x) => x.render(),
            Instruction::WorkDir(x) => x.render(),
            Instruction::Arg(x) => x.render(),
            Instruction::StopSignal(x) => x.render(),
            Instruction::HealthCheck(x) => x.render(),
            Instruction::Shell(x) => x.render(),
            Instruction::Comment(x) => x.render(),
        }
    }
}

/// The canonical base-image forms: with only an image name the line is
/// `FROM <image>`; pinned to a tag and named, it is
/// `FROM <image>:<tag> AS <name>`; pinned to a digest alone, it is
/// `FROM <image>@<digest>`.
pub proof fn lemma_from_forms(f: From, t: String, d: String, n: String)
    ensures
        f.tag_or_digest is None && f.name is None ==> f.spec_render() == "FROM "@ + f.image@,
        f.tag_or_digest == Some(TagOrDigest::Tag(t)) && f.name == Some(n) ==> f.spec_render()
            == "FROM "@ + f.image@ + ":"@ + t@ + " AS "@ + n@,
        f.tag_or_digest == Some(TagOrDigest::Digest(d)) && f.name is None ==> f.spec_render()
            == "FROM "@ + f.image@ + "@"@ + d@,
{
}

/// A disabled health probe renders to exactly `HEALTHCHECK NONE`.
pub proof fn lemma_health_check_disabled()
    ensures
        (HealthCheck::Disabled).spec_render() == "HEALTHCHECK NONE"@,
{
}

/// With only the retries flag set among the optional numerics, no other
/// flag reaches the output: the text is the keyword, the retries flag, and
/// the wrapped command's own line.
pub proof fn lemma_health_check_retries_only(cmd: Cmd, retries: i32)
    ensures
        (HealthCheck::Check {
            cmd,
            interval: None,
            timeout: None,
            start_period: None,
            retries: Some(retries),
        }).spec_render() == "HEALTHCHECK "@ + "--retries="@ + spec_decimal_signed(retries as int)
            + " "@ + cmd.spec_render(),
{
    let check = (HealthCheck::Check {
        cmd,
        interval: None,
        timeout: None,
        start_period: None,
        retries: Some(retries),
    });
    assert(check.spec_render() =~= "HEALTHCHECK "@ + "--retries="@ + spec_decimal_signed(
        retries as int,
    ) + " "@ + cmd.spec_render());
}

/// Every entry of a well-formed label reaches the rendered text, in
/// insertion order: entry `i`'s `key="value"` fragment spans exactly the
/// range at its own offset, and no other entry carries the same key.
pub proof fn lemma_label_entries_rendered(l: Label, i: int)
    requires
        l.wf(),
        0 <= i < l.entries().len(),
    ensures
        ({
            let frags = l.entries().map_values(|p: (Seq<char>, Seq<char>)| spec_kv(p.0, p.1));
            let off = "LABEL "@.len() + spec_join_offset(frags, label_separator().len(), i);
            &&& l.spec_render().subrange(off, off + frags[i].len()) == spec_kv(
                l.entries()[i].0,
                l.entries()[i].1,
            )
            &&& forall|j: int|
                0 <= j < l.entries().len() && j != i ==> l.entries()[j].0 != l.entries()[i].0
        }),
{
    let frags = l.entries().map_values(|p: (Seq<char>, Seq<char>)| spec_kv(p.0, p.1));
    let off = "LABEL "@.len() + spec_join_offset(frags, label_separator().len(), i);
    lemma_join_piece_at(frags, label_separator(), i);
    assert(frags[i] == spec_kv(l.entries()[i].0, l.entries()[i].1));
    assert(l.spec_render().subrange(off, off + frags[i].len()) =~= spec_join(
        frags,
        label_separator(),
    ).subrange(
        spec_join_offset(frags, label_separator().len(), i),
        spec_join_offset(frags, label_separator().len(), i) + frags[i].len(),
    ));
}

/// The same, for an environment instruction: every entry of a well-formed
/// environment reaches the rendered text once, at its own offset.
pub proof fn lemma_env_entries_rendered(e: Env, i: int)
    requires
        e.wf(),
        0 <= i < e.entries().len(),
    ensures
        ({
            let frags = e.entries().map_values(|p: (Seq<char>, Seq<char>)| spec_kv(p.0, p.1));
            let off = "ENV "@.len() + spec_join_offset(frags, " "@.len(), i);
            &&& e.spec_render().subrange(off, off + frags[i].len()) == spec_kv(
                e.entries()[i].0,
                e.entries()[i].1,
            )
            &&& forall|j: int|
                0 <= j < e.entries().len() && j != i ==> e.entries()[j].0 != e.entries()[i].0
        }),
{
    let frags = e.entries().map_values(|p: (Seq<char>, Seq<char>)| spec_kv(p.0, p.1));
    let off = "ENV "@.len() + spec_join_offset(frags, " "@.len(), i);
    lemma_join_piece_at(frags, " "@, i);
    assert(frags[i] == spec_kv(e.entries()[i].0, e.entries()[i].1));
    assert(e.spec_render().subrange(off, off + frags[i].len()) =~= spec_join(
        frags,
        " "@,
    ).subrange(
        spec_join_offset(frags, " "@.len(), i),
        spec_join_offset(frags, " "@.len(), i) + frags[i].len(),
    ));
}

/// Newlines reach a rendered label only as escaped line continuations,
/// provided no key holds a raw newline (keys are never escaped); the stored
/// values carry their newlines escaped by construction.
pub proof fn lemma_label_render_newlines_escaped(l: Label)
    requires
        forall|i: int|
            0 <= i < l.entries().len() ==> spec_no_newline(#[trigger] l.entries()[i].0),
        forall|i: int|
            0 <= i < l.entries().len() ==> spec_newlines_escaped(#[trigger] l.entries()[i].1),
    ensures
        spec_newlines_escaped(l.spec_render()),
{
    reveal_strlit("LABEL ");
    reveal_strlit(" \\\n      ");
    assert("LABEL "@ =~= seq!['L', 'A', 'B', 'E', 'L', ' ']);
    assert(label_separator() =~= seq![' ', '\\', '\n', ' ', ' ', ' ', ' ', ' ', ' ']);
    assert(spec_no_newline(seq!['L', 'A', 'B', 'E', 'L', ' ']));
    assert(spec_newlines_escaped(seq![' ', '\\', '\n', ' ', ' ', ' ', ' ', ' ', ' ']));
    let frags = l.entries().map_values(|p: (Seq<char>, Seq<char>)| spec_kv(p.0, p.1));
    assert forall|i: int| 0 <= i < frags.len() implies spec_newlines_escaped(
        #[trigger] frags[i],
    ) by {
        lemma_kv_fragment_escaped(l.entries()[i].0, l.entries()[i].1);
    }
    lemma_join_newlines_escaped(frags, label_separator());
    lemma_no_newline_escaped("LABEL "@);
    lemma_newlines_escaped_concat("LABEL "@, spec_join(frags, label_separator()));
}

/// The same, for an environment instruction: its separator holds no
/// newline, so the whole rendered line is escaped under the same premises.
pub proof fn lemma_env_render_newlines_escaped(e: Env)
    requires
        forall|i: int|
            0 <= i < e.entries().len() ==> spec_no_newline(#[trigger] e.entries()[i].0),
        forall|i: int|
            0 <= i < e.entries().len() ==> spec_newlines_escaped(#[trigger] e.entries()[i].1),
    ensures
        spec_newlines_escaped(e.spec_render()),
{
    reveal_strlit("ENV ");
    reveal_strlit(" ");
    assert("ENV "@ =~= seq!['E', 'N', 'V', ' ']);
    assert(" "@ =~= seq![' ']);
    assert(spec_no_newline(seq!['E', 'N', 'V', ' ']));
    assert(spec_no_newline(seq![' ']));
    let frags = e.entries().map_values(|p: (Seq<char>, Seq<char>)| spec_kv(p.0, p.1));
    assert forall|i: int| 0 <= i < frags.len() implies spec_newlines_escaped(
        #[trigger] frags[i],
    ) by {
        lemma_kv_fragment_escaped(e.entries()[i].0, e.entries()[i].1);
    }
    lemma_no_newline_escaped(" "@);
    lemma_join_newlines_escaped(frags, " "@);
    lemma_no_newline_escaped("ENV "@);
    lemma_newlines_escaped_concat("ENV "@, spec_join(frags, " "@));
}

/// A build step deferred to the first downstream build that uses this
/// document as a base: `ONBUILD <inner instruction>`.
#[derive(Debug, Clone)]
pub struct OnBuild {
    pub instruction: Instruction,
}

impl OnBuild {
    /// The exact text this instruction renders to.
    pub open spec fn spec_render(&self) -> Seq<char> {
        "ONBUILD "@ + self.instruction.spec_render()
    }

    pub fn from(instruction: Instruction) -> (r: OnBuild)
        ensures
            r.instruction == instruction,
    {
        OnBuild { instruction }
    }

    /// The instruction's textual line.
    pub fn render(&self) -> (r: String)
        ensures
            r@ == self.spec_render(),
    {
        let line = self.instruction.render();
        String::from_str("ONBUILD ").concat(line.as_str())
    }
}

} // verus!

//! The document builder and renderer: a `DockerFile` accumulates
//! instructions in insertion order, holds singleton slots that are
//! overwritten rather than appended, and renders the finished document into
//! its final text in a fixed section order.

use vstd::prelude::*;
use vstd::string::StringExecFns;

use crate::instructions::Add;
use crate::instructions::Arg;
use crate::instructions::Cmd;
use crate::instructions::Comment;
use crate::instructions::EntryPoint;
use crate::instructions::Env;
use crate::instructions::Expose;
use crate::instructions::From;
use crate::instructions::HealthCheck;
use crate::instructions::Instruction;
use crate::instructions::Label;
use crate::instructions::Maintainer;
use crate::instructions::OnBuild;
use crate::instructions::Run;
use crate::instructions::Shell;
use crate::instructions::StopSignal;
use crate::instructions::User;
use crate::instructions::Volume;
use crate::instructions::WorkDir;

verus! {

/// Each instruction text followed by a newline.
pub open spec fn spec_lines(items: Seq<Seq<char>>) -> Seq<char>
    decreases items.len(),
{
    if items.len() == 0 {
        Seq::empty()
    } else {
        spec_lines(items.drop_last()) + items.last() + "\n"@
    }
}

/// The maintainer section: a blank line and the maintainer's own line when
/// the slot is set, nothing when it is not.
pub open spec fn spec_maintainer_section(maintainer: Option<Maintainer>) -> Seq<char> {
    match maintainer {
        Some(m) => "\n"@ + m.spec_render() + "\n"@,
        None => Seq::empty(),
    }
}

/// The body section: a blank line and one line per instruction, in
/// insertion order, when any instruction was appended; nothing otherwise.
pub open spec fn spec_body_section(instructions: Seq<Instruction>) -> Seq<char> {
    if instructions.len() > 0 {
        "\n"@ + spec_lines(instructions.map_values(|i: Instruction| i.spec_render()))
    } else {
        Seq::empty()
    }
}

/// The triggered section: a blank line and one `ONBUILD` line per triggered
/// instruction, in insertion order, when any was added; nothing otherwise.
pub open spec fn spec_on_build_section(on_builds: Seq<OnBuild>) -> Seq<char> {
    if on_builds.len() > 0 {
        "\n"@ + spec_lines(on_builds.map_values(|o: OnBuild| o.spec_render()))
    } else {
        Seq::empty()
    }
}

/// The entrypoint/command section: a blank line, then whichever of the two
/// slots are set, on consecutive lines with no blank line between the two.
pub open spec fn spec_tail_section(entry_point: Option<EntryPoint>, cmd: Option<Cmd>) -> Seq<
    char,
> {
    match (entry_point, cmd) {
        (Some(e), Some(c)) => "\n"@ + e.spec_render() + "\n"@ + c.spec_render() + "\n"@,
        (Some(e), None) => "\n"@ + e.spec_render() + "\n"@,
        (None, Some(c)) => "\n"@ + c.spec_render() + "\n"@,
        (None, None) => Seq::empty(),
    }
}

/// The mathematical shape of a document: everything the builder calls can
/// set, with the two ordered sequences as plain `Seq`s.
#[verifier::ext_equal]
pub struct DocModel {
    pub from: From,
    pub maintainer: Option<Maintainer>,
    pub entry_point: Option<EntryPoint>,
    pub cmd: Option<Cmd>,
    pub instructions: Seq<Instruction>,
    pub on_builds: Seq<OnBuild>,
}

impl DocModel {
    /// The document begun from its base image: no other field set.
    pub open spec fn init(from: From) -> DocModel {
        DocModel {
            from,
            maintainer: None,
            entry_point: None,
            cmd: None,
            instructions: Seq::empty(),
            on_builds: Seq::empty(),
        }
    }

    /// The document with its maintainer slot overwritten.
    pub open spec fn with_maintainer(self, maintainer: Maintainer) -> DocModel {
        DocModel { maintainer: Some(maintainer), ..self }
    }

    /// The document with its entrypoint slot overwritten.
    pub open spec fn with_entry_point(self, entry_point: EntryPoint) -> DocModel {
        DocModel { entry_point: Some(entry_point), ..self }
    }

    /// The document with its default-command slot overwritten.
    pub open spec fn with_cmd(self, cmd: Cmd) -> DocModel {
        DocModel { cmd: Some(cmd), ..self }
    }

    /// The document with one more body instruction, after all others.
    pub open spec fn appended(self, instruction: Instruction) -> DocModel {
        DocModel { instructions: self.instructions.push(instruction), ..self }
    }

    /// The document with one more triggered instruction, after all others.
    pub open spec fn with_on_build(self, on_build: OnBuild) -> DocModel {
        DocModel { on_builds: self.on_builds.push(on_build), ..self }
    }

    /// The sections before the entrypoint/command pair: base image,
    /// maintainer if set, body instructions in insertion order, then
    /// triggered instructions; one blank line before each non-empty section.
    pub open spec fn spec_head(self) -> Seq<char> {
        self.from.spec_render() + "\n"@ + spec_maintainer_section(self.maintainer)
            + spec_body_section(self.instructions) + spec_on_build_section(self.on_builds)
    }

    /// The entrypoint/command section: when both are set they stand on
    /// consecutive lines, with no blank line between the two.
    pub open spec fn spec_tail(self) -> Seq<char> {
        spec_tail_section(self.entry_point, self.cmd)
    }

    /// The full document text: the sections in their fixed order, each line
    /// ended by a newline, a blank line only between non-empty sections.
    pub open spec fn spec_render(self) -> Seq<char> {
        self.spec_head() + self.spec_tail()
    }
}

/// The document under construction: one base image, three singleton slots,
/// and two ordered instruction lists.
#[derive(Debug, Clone)]
pub struct DockerFile {
    from: From,
    maintainer: Option<Maintainer>,
    entry_point: Option<EntryPoint>,
    cmd: Option<Cmd>,
    instructions: Vec<Instruction>,
    on_builds: Vec<OnBuild>,
}

impl View for DockerFile {
    type V = DocModel;

    closed spec fn view(&self) -> DocModel {
        DocModel {
            from: self.from,
            maintainer: self.maintainer,
            entry_point: self.entry_point,
            cmd: self.cmd,
            instructions: self.instructions@,
            on_builds: self.on_builds@,
        }
    }
}

impl DockerFile {
    /// Begins a document from its required base-image instruction, which is
    /// fixed for the document's lifetime.
    pub fn from(from: From) -> (r: DockerFile)
        ensures
            r@ == DocModel::init(from),
    {
        let ghost arg = from;
        let r = DockerFile {
            from,
            maintainer: None,
            entry_point: None,
            cmd: None,
            instructions: Vec::new(),
            on_builds: Vec::new(),
        };
        proof {
            assert(r@ =~= DocModel::init(arg));
        }
        r
    }

    /// Overwrites the maintainer slot: only the last value set is kept.
    /// Deprecated in the target syntax; a label under the `maintainer` key
    /// says the same.
    pub fn maintainer(self, maintainer: Maintainer) -> (r: DockerFile)
        ensures
            r@ == self@.with_maintainer(maintainer),
    {
        let ghost pre = self@;
        let ghost arg = maintainer;
        let mut d = self;
        d.maintainer = Some(maintainer);
        proof {
            assert(d@ =~= pre.with_maintainer(arg));
        }
        d
    }

    /// Overwrites the entrypoint slot: only the last value set is kept.
    pub fn entry_point(self, entry_point: EntryPoint) -> (r: DockerFile)
        ensures
            r@ == self@.with_entry_point(entry_point),
    {
        let ghost pre = self@;
        let ghost arg = entry_point;
        let mut d = self;
        d.entry_point = Some(entry_point);
        proof {
            assert(d@ =~= pre.with_entry_point(arg));
        }
        d
    }

    /// Overwrites the default-command slot: only the last value set is kept.
    pub fn cmd(self, cmd: Cmd) -> (r: DockerFile)
        ensures
            r@ == self@.with_cmd(cmd),
    {
        let ghost pre = self@;
        let ghost arg = cmd;
        let mut d = self;
        d.cmd = Some(cmd);
        proof {
            assert(d@ =~= pre.with_cmd(arg));
        }
        d
    }

    /// Pushes one instruction onto the body list, after all earlier ones.
    fn instruction(self, instruction: Instruction) -> (r: DockerFile)
        ensures
            r@ == self@.appended(instruction),
    {
        let ghost pre = self@;
        let ghost arg = instruction;
        let mut d = self;
        d.instructions.push(instruction);
        proof {
            assert(d@ =~= pre.appended(arg));
        }
        d
    }

    /// Appends a `RUN` step to the body.
    pub fn run(self, run: Run) -> (r: DockerFile)
        ensures
            r@ == self@.appended(Instruction::Run(run)),
    {
        self.instruction(Instruction::Run(run))
    }

    /// Appends a `LABEL` step to the body.
    pub fn label(self, label: Label) -> (r: DockerFile)
        ensures
            r@ == self@.appended(Instruction::Label(label)),
    {
        self.instruction(Instruction::Label(label))
    }

    /// Appends an `EXPOSE` step to the body.
    pub fn expose(self, expose: Expose) -> (r: DockerFile)
        ensures
            r@ == self@.appended(Instruction::Expose(expose)),
    {
        self.instruction(Instruction::Expose(expose))
    }

    /// Appends an `ENV` step to the body.
    pub fn env(self, env: Env) -> (r: DockerFile)
        ensures
            r@ == self@.appended(Instruction::Env(env)),
    {
        self.instruction(Instruction::Env(env))
    }

    /// Appends an `ADD` step to the body.
    pub fn add(self, add: Add) -> (r: DockerFile)
        ensures
            r@ == self@.appended(Instruction::Add(add)),
    {
        self.instruction(Instruction::Add(add))
    }

    /// Appends a `COPY` step to the body.
    pub fn copy(self, copy: crate::instructions::Copy) -> (r: DockerFile)
        ensures
            r@ == self@.appended(Instruction::Copy(copy)),
    {
        self.instruction(Instruction::Copy(copy))
    }

    /// Appends a `VOLUME` step to the body.
    pub fn volume(self, volume: Volume) -> (r: DockerFile)
        ensures
            r@ == self@.appended(Instruction::Volume(volume)),
    {
        self.instruction(Instruction::Volume(volume))
    }

    /// Appends a `USER` step to the body.
    pub fn user(self, user: User) -> (r: DockerFile)
        ensures
            r@ == self@.appended(Instruction::User(user)),
    {
        self.instruction(Instruction::User(user))
    }

    /// Appends a `WORKDIR` step to the body.
    pub fn work_dir(self, work_dir: WorkDir) -> (r: DockerFile)
        ensures
            r@ == self@.appended(Instruction::WorkDir(work_dir)),
    {
        self.instruction(Instruction::WorkDir(work_dir))
    }

    /// Appends an `ARG` step to the body.
    pub fn arg(self, arg: Arg) -> (r: DockerFile)
        ensures
            r@ == self@.appended(Instruction::Arg(arg)),
    {
        self.instruction(Instruction::Arg(arg))
    }

    /// Appends a `STOPSIGNAL` step to the body.
    pub fn stop_signal(self, stop_signal: StopSignal) -> (r: DockerFile)
        ensures
            r@ == self@.appended(Instruction::StopSignal(stop_signal)),
    {
        self.instruction(Instruction::StopSignal(stop_signal))
    }

    /// Appends a `HEALTHCHECK` step to the body.
    pub fn health_check(self, health_check: HealthCheck) -> (r: DockerFile)
        ensures
            r@ == self@.appended(Instruction::HealthCheck(health_check)),
    {
        self.instruction(Instruction::HealthCheck(health_check))
    }

    /// Appends a `SHELL` step to the body.
    pub fn shell(self, shell: Shell) -> (r: DockerFile)
        ensures
            r@ == self@.appended(Instruction::Shell(shell)),
    {
        self.instruction(Instruction::Shell(shell))
    }

    /// Appends a comment line to the body.
    pub fn comment(self, comment: Comment) -> (r: DockerFile)
        ensures
            r@ == self@.appended(Instruction::Comment(comment)),
    {
        self.instruction(Instruction::Comment(comment))
    }

    /// Pushes one triggered instruction onto the trailing `ONBUILD` list.
    pub fn on_build(self, on_build: OnBuild) -> (r: DockerFile)
        ensures
            r@ == self@.with_on_build(on_build),
    {
        let ghost pre = self@;
        let ghost arg = on_build;
        let mut d = self;
        d.on_builds.push(on_build);
        proof {
            assert(d@ =~= pre.with_on_build(arg));
        }
        d
    }

    /// The document's full text, with a final trailing newline and none
    /// before the first line. Rendering only reads the document, so the
    /// output is a function of the document value alone.
    pub fn render(&self) -> (r: String)
        ensures
            r@ == self@.spec_render(),
    {
        let mut r = self.from.render();
        r.append("\n");
        append_maintainer_section(&mut r, &self.maintainer);
        append_body_section(&mut r, &self.instructions);
        append_on_build_section(&mut r, &self.on_builds);
        append_tail_section(&mut r, &self.entry_point, &self.cmd);
        proof {
            assert(r@ =~= self@.spec_render());
        }
        r
    }
}

fn append_maintainer_section(r: &mut String, maintainer: &Option<Maintainer>)
    ensures
        final(r)@ == old(r)@ + spec_maintainer_section(*maintainer),
{
    match maintainer {
        Some(m) => {
            r.append("\n");
            let line = m.render();
            r.append(line.as_str());
            r.append("\n");
            proof {
                assert(r@ =~= old(r)@ + spec_maintainer_section(*maintainer));
            }
        },
        None => {
            proof {
                assert(r@ =~= old(r)@ + spec_maintainer_section(*maintainer));
            }
        },
    }
}

fn append_body_section(r: &mut String, instructions: &Vec<Instruction>)
    ensures
        final(r)@ == old(r)@ + spec_body_section(instructions@),
{
    if instructions.len() > 0 {
        r.append("\n");
        let ghost body = instructions@.map_values(|ins: Instruction| ins.spec_render());
        let ghost base = r@;
        let mut i: usize = 0;
        while i < instructions.len()
            invariant
                i <= instructions.len(),
                body == instructions@.map_values(|ins: Instruction| ins.spec_render()),
                body.len() == instructions.len(),
                r@ == base + spec_lines(body.take(i as int)),
            decreases instructions.len() - i,
        {
            let line = instructions[i].render();
            r.append(line.as_str());
            r.append("\n");
            proof {
                assert(body.take(i + 1).drop_last() =~= body.take(i as int));
                assert(body.take(i + 1).last() == body[i as int]);
                assert(body[i as int] == instructions@[i as int].spec_render());
                assert(r@ =~= base + spec_lines(body.take(i + 1)));
            }
            i += 1;
        }
        proof {
            assert(body.take(instructions.len() as int) =~= body);
            assert(r@ =~= old(r)@ + spec_body_section(instructions@));
        }
    }
}

fn append_on_build_section(r: &mut String, on_builds: &Vec<OnBuild>)
    ensures
        final(r)@ == old(r)@ + spec_on_build_section(on_builds@),
{
    if on_builds.len() > 0 {
        r.append("\n");
        let ghost triggered = on_builds@.map_values(|o: OnBuild| o.spec_render());
        let ghost base = r@;
        let mut i: usize = 0;
        while i < on_builds.len()
            invariant
                i <= on_builds.len(),
                triggered == on_builds@.map_values(|o: OnBuild| o.spec_render()),
                triggered.len() == on_builds.len(),
                r@ == base + spec_lines(triggered.take(i as int)),
            decreases on_builds.len() - i,
        {
            let line = on_builds[i].render();
            r.append(line.as_str());
            r.append("\n");
            proof {
                assert(triggered.take(i + 1).drop_last() =~= triggered.take(i as int));
                assert(triggered.take(i + 1).last() == triggered[i as int]);
                assert(triggered[i as int] == on_builds@[i as int].spec_render());
                assert(r@ =~= base + spec_lines(triggered.take(i + 1)));
            }
            i += 1;
        }
        proof {
            assert(triggered.take(on_builds.len() as int) =~= triggered);
            assert(r@ =~= old(r)@ + spec_on_build_section(on_builds@));
        }
    }
}

fn append_tail_section(r: &mut String, entry_point: &Option<EntryPoint>, cmd: &Option<Cmd>)
    ensures
        final(r)@ == old(r)@ + spec_tail_section(*entry_point, *cmd),
{
    match (entry_point, cmd) {
        (Some(e), Some(c)) => {
            r.append("\n");
            let line = e.render();
            r.append(line.as_str());
            r.append("\n");
            let line = c.render();
            r.append(line.as_str());
            r.append("\n");
            proof {
                assert(r@ =~= old(r)@ + spec_tail_section(*entry_point, *cmd));
            }
        },
        (Some(e), None) => {
            r.append("\n");
            let line = e.render();
            r.append(line.as_str());
            r.append("\n");
            proof {
                assert(r@ =~= old(r)@ + spec_tail_section(*entry_point, *cmd));
            }
        },
        (None, Some(c)) => {
            r.append("\n");
            let line = c.render();
            r.append(line.as_str());
            r.append("\n");
            proof {
                assert(r@ =~= old(r)@ + spec_tail_section(*entry_point, *cmd));
            }
        },
        (None, None) => {
            proof {
                assert(r@ =~= old(r)@ + spec_tail_section(*entry_point, *cmd));
            }
        },
    }
}

/// Rendering is deterministic: the text is a function of the document value
/// alone, so rendering twice without intervening mutation yields identical
/// text.
pub proof fn lemma_render_deterministic(d: &DockerFile, first: Seq<char>, second: Seq<char>)
    requires
        first == d@.spec_render(),
        second == d@.spec_render(),
    ensures
        first == second,
{
}

/// Overwriting a singleton slot replaces, never appends: setting the
/// maintainer twice leaves the same document as setting it once to the
/// second value, so only the second value reaches the rendered output.
pub proof fn lemma_maintainer_overwrite(m: DocModel, first: Maintainer, second: Maintainer)
    ensures
        m.with_maintainer(first).with_maintainer(second) == m.with_maintainer(second),
        m.with_maintainer(first).with_maintainer(second).spec_render() == m.with_maintainer(
            second,
        ).spec_render(),
{
    assert(m.with_maintainer(first).with_maintainer(second) =~= m.with_maintainer(second));
}

/// When both an entrypoint and a default command are set, the rendered text
/// holds the entrypoint line immediately followed by the command line, with
/// no blank line between the two.
pub proof fn lemma_entry_point_cmd_adjacent(m: DocModel, e: EntryPoint, c: Cmd)
    requires
        m.entry_point == Some(e),
        m.cmd == Some(c),
    ensures
        m.spec_render() == m.spec_head() + "\n"@ + e.spec_render() + "\n"@ + c.spec_render()
            + "\n"@,
{
    assert(m.spec_tail() == "\n"@ + e.spec_render() + "\n"@ + c.spec_render() + "\n"@);
    assert(m.spec_render() =~= m.spec_head() + "\n"@ + e.spec_render() + "\n"@ + c.spec_render()
        + "\n"@);
}

} // verus!

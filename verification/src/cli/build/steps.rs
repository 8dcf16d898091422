//! The steps of the workflow and how each is written down.
use crate::text::{chars_of, decimal, decimal_string, slice_of, string_of};
use crate::utils::{yaml_quote, yaml_quoted, YAML_INDENT};
use vstd::prelude::*;
use vstd::string::StringExecFns;

verus! {

/// What a grading step is run with.
#[derive(Debug)]
pub struct CommandWith {
    pub test_name: String,
    pub setup_command: String,
    pub command: String,
    pub timeout: u64,
    pub max_score: u32,
}

/// A step that runs one check.
#[derive(Debug)]
pub struct CommandStep {
    pub name: String,
    pub id: String,
    /// The action that runs the command.
    pub uses: String,
    pub with: CommandWith,
}

/// The step that reports the results of all the others.
#[derive(Debug)]
pub struct ReporterStep {
    pub name: String,
    /// The action that reports.
    pub uses: String,
    /// The environment of the step: names with their values, in this order.
    pub env: Vec<(String, String)>,
    /// The identifiers of the steps to report, separated by commas.
    pub runners_csv: String,
}

/// A `CommandWith` as a mathematical value.
pub struct CommandWithView {
    pub test_name: Seq<char>,
    pub setup_command: Seq<char>,
    pub command: Seq<char>,
    pub timeout: u64,
    pub max_score: u32,
}

/// A `CommandStep` as a mathematical value.
pub struct CommandStepView {
    pub name: Seq<char>,
    pub id: Seq<char>,
    pub uses: Seq<char>,
    pub with: CommandWithView,
}

/// A `ReporterStep` as a mathematical value.
pub struct ReporterStepView {
    pub name: Seq<char>,
    pub uses: Seq<char>,
    pub env: Seq<(Seq<char>, Seq<char>)>,
    pub runners_csv: Seq<char>,
}

impl DeepView for CommandWith {
    type V = CommandWithView;

    open spec fn deep_view(&self) -> CommandWithView {
        CommandWithView {
            test_name: self.test_name@,
            setup_command: self.setup_command@,
            command: self.command@,
            timeout: self.timeout,
            max_score: self.max_score,
        }
    }
}

impl DeepView for CommandStep {
    type V = CommandStepView;

    open spec fn deep_view(&self) -> CommandStepView {
        CommandStepView {
            name: self.name@,
            id: self.id@,
            uses: self.uses@,
            with: self.with.deep_view(),
        }
    }
}

impl DeepView for ReporterStep {
    type V = ReporterStepView;

    open spec fn deep_view(&self) -> ReporterStepView {
        ReporterStepView {
            name: self.name@,
            uses: self.uses@,
            env: self.env.deep_view(),
            runners_csv: self.runners_csv@,
        }
    }
}

/// The white space that starts a line at the depth `level`.
pub open spec fn indentation(level: nat) -> Seq<char>
    decreases level,
{
    if level == 0 {
        Seq::empty()
    } else {
        indentation((level - 1) as nat) + YAML_INDENT@
    }
}

/// The line `line` at the depth `level`, with the line feed that ends it.
pub open spec fn indented(level: nat, line: Seq<char>) -> Seq<char> {
    indentation(level) + line + seq!['\n']
}

/// Appends `line` to `s` as a line of its own, at the depth `level`.
pub fn indent(s: &mut String, level: usize, line: &str)
    ensures
        final(s)@ == old(s)@ + indented(level as nat, line@),
{
    let mut i: usize = 0;
    assert(s@ == old(s)@ + indentation(0));
    while i < level
        invariant
            i <= level,
            s@ == old(s)@ + indentation(i as nat),
        decreases level - i,
    {
        s.append(YAML_INDENT);
        i += 1;
        assert(s@ == old(s)@ + indentation(i as nat));
    }
    s.append(line);
    s.push('\n');
    assert(s@ == old(s)@ + indented(level as nat, line@));
}

/// How a step that runs a check is written, starting at the depth `level`.
pub open spec fn command_step_text(step: CommandStepView, level: nat) -> Seq<char> {
    indented(level, "- name: "@ + step.name) + indented(level + 1, "id: "@ + yaml_quoted(step.id))
        + indented(level + 1, "uses: "@ + yaml_quoted(step.uses)) + indented(level + 1, "with:"@)
        + indented(level + 2, "test-name: "@ + yaml_quoted(step.with.test_name)) + indented(
        level + 2,
        "setup-command: "@ + yaml_quoted(step.with.setup_command),
    ) + indented(level + 2, "command: "@ + yaml_quoted(step.with.command)) + indented(
        level + 2,
        "timeout: "@ + decimal(step.with.timeout as nat),
    ) + indented(level + 2, "max-score: "@ + decimal(step.with.max_score as nat))
}

/// The lines of the environment `env`, each at the depth `level`: a name, a colon, and
/// the value between double quotes.
pub open spec fn env_text(env: Seq<(Seq<char>, Seq<char>)>, level: nat) -> Seq<char>
    decreases env.len(),
{
    if env.len() == 0 {
        Seq::empty()
    } else {
        env_text(env.drop_last(), level) + indented(
            level,
            env.last().0 + ": \""@ + env.last().1 + "\""@,
        )
    }
}

/// How the reporting step is written, starting at the depth `level`.
pub open spec fn reporter_step_text(step: ReporterStepView, level: nat) -> Seq<char> {
    indented(level, "- name: "@ + step.name) + indented(level + 1, "uses: "@ + step.uses)
        + indented(level + 1, "env:"@) + env_text(step.env, level + 2) + indented(
        level + 1,
        "with:"@,
    ) + indented(level + 2, "runners: "@ + step.runners_csv)
}

/// `label` followed by `value`.
fn labelled(label: &str, value: &str) -> (r: String)
    ensures
        r@ == label@ + value@,
{
    let mut out = String::from_str(label);
    out.append(value);
    out
}

impl CommandStep {
    /// Appends this step to `buf` as an item of a list, starting at the depth
    /// `indent_level`.
    pub fn write_to(&self, buf: &mut String, indent_level: usize)
        requires
            indent_level + 2 <= usize::MAX,
        ensures
            final(buf)@ == old(buf)@ + command_step_text(self.deep_view(), indent_level as nat),
    {
        let inner = indent_level + 1;
        let deep = indent_level + 2;
        indent(buf, indent_level, labelled("- name: ", self.name.as_str()).as_str());
        indent(buf, inner, labelled("id: ", yaml_quote(self.id.as_str()).as_str()).as_str());
        indent(buf, inner, labelled("uses: ", yaml_quote(self.uses.as_str()).as_str()).as_str());
        indent(buf, inner, "with:");
        indent(
            buf,
            deep,
            labelled("test-name: ", yaml_quote(self.with.test_name.as_str()).as_str()).as_str(),
        );
        indent(
            buf,
            deep,
            labelled(
                "setup-command: ",
                yaml_quote(self.with.setup_command.as_str()).as_str(),
            ).as_str(),
        );
        indent(
            buf,
            deep,
            labelled("command: ", yaml_quote(self.with.command.as_str()).as_str()).as_str(),
        );
        indent(
            buf,
            deep,
            labelled("timeout: ", decimal_string(self.with.timeout).as_str()).as_str(),
        );
        indent(
            buf,
            deep,
            labelled("max-score: ", decimal_string(self.with.max_score as u64).as_str()).as_str(),
        );
        assert(buf@ =~= old(buf)@ + command_step_text(self.deep_view(), indent_level as nat));
    }
}

impl ReporterStep {
    /// Appends this step to `buf` as an item of a list, starting at the depth
    /// `indent_level`.
    pub fn write_to(&self, buf: &mut String, indent_level: usize)
        requires
            indent_level + 2 <= usize::MAX,
        ensures
            final(buf)@ == old(buf)@ + reporter_step_text(self.deep_view(), indent_level as nat),
    {
        let inner = indent_level + 1;
        let deep = indent_level + 2;
        indent(buf, indent_level, labelled("- name: ", self.name.as_str()).as_str());
        indent(buf, inner, labelled("uses: ", self.uses.as_str()).as_str());
        indent(buf, inner, "env:");
        let ghost head = buf@;
        let ghost env = self.env.deep_view();
        let mut i: usize = 0;
        assert(env.take(0) =~= Seq::<(Seq<char>, Seq<char>)>::empty());
        assert(buf@ =~= head + env_text(env.take(0), deep as nat));
        while i < self.env.len()
            invariant
                i <= self.env.len(),
                env == self.env.deep_view(),
                buf@ == head + env_text(env.take(i as int), deep as nat),
            decreases self.env.len() - i,
        {
            let ghost upto = env.take(i + 1);
            assert(upto.drop_last() == env.take(i as int));
            assert(upto.last() == self.env@[i as int].deep_view());
            let mut line = String::from_str(self.env[i].0.as_str());
            line.append(": \"");
            line.append(self.env[i].1.as_str());
            line.append("\"");
            indent(buf, deep, line.as_str());
            assert(buf@ =~= head + env_text(upto, deep as nat));
            i += 1;
        }
        assert(env.take(self.env.len() as int) == env);
        indent(buf, inner, "with:");
        indent(buf, deep, labelled("runners: ", self.runners_csv.as_str()).as_str());
        assert(buf@ =~= old(buf)@ + reporter_step_text(self.deep_view(), indent_level as nat));
    }
}

/// Where the first line feed of `s` stands; the length of `s` where it has none.
pub open spec fn first_line_feed(s: Seq<char>) -> int
    decreases s.len(),
{
    if s.len() == 0 || s.first() == '\n' {
        0
    } else {
        1 + first_line_feed(s.drop_first())
    }
}

/// A line without the carriage return that stood before its line feed.
pub open spec fn without_carriage_return(line: Seq<char>) -> Seq<char> {
    if line.len() > 0 && line.last() == '\r' {
        line.drop_last()
    } else {
        line
    }
}

/// The lines of `s`. A line ends with a line feed, or with a carriage return and a
/// line feed, neither of which belongs to it; the last line may end with the text.
pub open spec fn lines_of(s: Seq<char>) -> Seq<Seq<char>>
    decreases s.len(),
{
    if s.len() == 0 {
        Seq::empty()
    } else {
        let k = first_line_feed(s);
        if k < 0 || k >= s.len() {
            seq![s]
        } else {
            seq![without_carriage_return(s.take(k))] + lines_of(s.skip(k + 1))
        }
    }
}

/// The lines `lines`, each at the depth `level`.
pub open spec fn indented_lines(lines: Seq<Seq<char>>, level: nat) -> Seq<char>
    decreases lines.len(),
{
    if lines.len() == 0 {
        Seq::empty()
    } else {
        indented(level, lines.first()) + indented_lines(lines.drop_first(), level)
    }
}

proof fn lemma_first_line_feed(s: Seq<char>, k: int)
    requires
        0 <= k <= s.len(),
        forall|j: int| 0 <= j < k ==> #[trigger] s[j] != '\n',
        k < s.len() ==> s[k] == '\n',
    ensures
        first_line_feed(s) == k,
    decreases k,
{
    if k > 0 {
        let t = s.drop_first();
        assert forall|j: int| 0 <= j < k - 1 implies #[trigger] t[j] != '\n' by {
            assert(t[j] == s[j + 1]);
        }
        if k < s.len() {
            assert(t[k - 1] == s[k]);
        }
        assert(s[0] != '\n');
        lemma_first_line_feed(t, k - 1);
    }
}

/// Appends each line of `text` to `buf` as a line of its own, at the depth `level`.
pub fn indent_lines(buf: &mut String, level: usize, text: &str)
    ensures
        final(buf)@ == old(buf)@ + indented_lines(lines_of(text@), level as nat),
{
    let v = chars_of(text);
    let ghost want = indented_lines(lines_of(v@), level as nat);
    let mut start: usize = 0;
    assert(v@.skip(0) == v@);
    while start < v.len()
        invariant
            start <= v.len(),
            v@ == text@,
            want == indented_lines(lines_of(v@), level as nat),
            buf@ + indented_lines(lines_of(v@.skip(start as int)), level as nat) == old(buf)@
                + want,
        decreases v.len() - start,
    {
        let ghost rest = v@.skip(start as int);
        let mut end: usize = start;
        while end < v.len() && v[end] != '\n'
            invariant
                start <= end <= v.len(),
                forall|j: int| start <= j < end ==> #[trigger] v@[j] != '\n',
            decreases v.len() - end,
        {
            end += 1;
        }
        let ghost k = end - start;
        proof {
            assert forall|j: int| 0 <= j < k implies #[trigger] rest[j] != '\n' by {
                assert(rest[j] == v@[j + start]);
            }
            if k < rest.len() {
                assert(rest[k] == v@[end as int]);
            }
            lemma_first_line_feed(rest, k);
            assert(rest.take(k) == v@.subrange(start as int, end as int));
        }
        let ghost before = buf@;
        if end == v.len() {
            let line = slice_of(&v, start, end);
            assert(line@ == rest) by {
                assert(rest.take(k) == rest);
            }
            indent(buf, level, string_of(&line).as_str());
            proof {
                let lines = lines_of(rest);
                assert(lines == seq![rest]);
                assert(lines.drop_first() =~= Seq::<Seq<char>>::empty());
                assert(lines.first() == rest);
                assert(indented_lines(lines.drop_first(), level as nat) =~= Seq::<char>::empty());
                assert(indented_lines(lines, level as nat) =~= indented(level as nat, rest));
                assert(v@.skip(v.len() as int) =~= Seq::<char>::empty());
                assert(buf@ + indented_lines(lines_of(v@.skip(v.len() as int)), level as nat)
                    =~= before + indented_lines(lines, level as nat));
            }
            start = end;
        } else {
            let stop = if end > start && v[end - 1] == '\r' {
                end - 1
            } else {
                end
            };
            let line = slice_of(&v, start, stop);
            proof {
                let whole = rest.take(k);
                if k > 0 {
                    assert(whole.last() == v@[end - 1]);
                }
                assert(line@ =~= without_carriage_return(whole));
            }
            indent(buf, level, string_of(&line).as_str());
            proof {
                let lines = lines_of(rest);
                let tail = lines_of(rest.skip(k + 1));
                assert(lines == seq![line@] + tail);
                assert(lines.first() == line@);
                assert(lines.drop_first() =~= tail);
                assert(rest.skip(k + 1) =~= v@.skip(end + 1));
                assert(buf@ + indented_lines(tail, level as nat) =~= before + indented_lines(
                    lines,
                    level as nat,
                ));
            }
            start = end + 1;
        }
    }
    proof {
        assert(v@.skip(v.len() as int) =~= Seq::<char>::empty());
        assert(buf@ + Seq::<char>::empty() =~= buf@);
    }
}

} // verus!

//! Execution plans parsed out of a model's free-text answer.
//!
//! The answer is expected to number its steps and label their parts
//! (`Command:` with the command in backticks, `Description:`,
//! `Dependencies:`); anything else is tolerated, and an answer with no
//! recognisable step yields a single echo step for the goal.

use vstd::prelude::*;
use crate::text::{dec_str, find_str, lines_spec, prefix_of, split_lines, starts_with,
    trim_seq, trim_str, u64_to_string, views_of};

verus! {

/// One step of an execution plan.
#[derive(Clone, Debug)]
pub struct ExecutionStep {
    pub id: String,
    pub command: String,
    pub description: String,
    pub dependencies: Vec<String>,
    pub expected_output: Option<String>,
    pub retry_count: u32,
}

/// A parsed execution plan.
#[derive(Clone, Debug)]
pub struct ExecutionPlan {
    pub steps: Vec<ExecutionStep>,
    pub context: Vec<(String, String)>,
    pub estimated_duration: u64,
}

/// The prompt that asks a model for a numbered, labelled plan for `goal`.
pub fn create_planning_prompt(goal: &str) -> (r: String)
    ensures
        r@ == "Create a detailed execution plan for the following goal: "@ + goal@
            + "\n\nPlease break down the goal into specific, actionable steps that can be executed as CLI commands.\nFormat your response as a numbered list of steps, each with a Command in backticks, a Description, and its Dependencies."@,
{
    let mut s = String::from_str("Create a detailed execution plan for the following goal: ");
    s.append(goal);
    s.append(
        "\n\nPlease break down the goal into specific, actionable steps that can be executed as CLI commands.\nFormat your response as a numbered list of steps, each with a Command in backticks, a Description, and its Dependencies.",
    );
    s
}

/// The echo step produced when no step can be parsed out of the answer.
pub open spec fn is_echo_step(s: ExecutionStep, goal: Seq<char>) -> bool {
    s.id@ == "step_1"@ && s.command@ == "echo 'Goal: "@ + goal + "'"@ && s.description@
        == "Display the goal"@ && s.dependencies@.len() == 0 && (s.expected_output matches Some(
        e,
    ) && e@ == "Goal: "@ + goal) && s.retry_count == 0
}

/// A step as the parser builds it: numbered identifier, no expected
/// output, no retries yet.
pub open spec fn is_parsed_step(s: ExecutionStep) -> bool {
    s.expected_output is None && s.retry_count == 0 && prefix_of_step_id(s.id@)
}

/// The identifier shape `step_<digits>`.
pub open spec fn prefix_of_step_id(id: Seq<char>) -> bool {
    exists|n: int| 0 <= n && id == "step_"@ + dec_str(n)
}

/// No line of the answer opens a first step: none starts, after
/// trimming, with `1.`.
pub open spec fn no_numbered_line(lines: Seq<Seq<char>>) -> bool {
    forall|j: int|
        0 <= j < lines.len() ==> !prefix_of(
            dec_str(1) + seq!['.'],
            trim_seq(#[trigger] lines[j]),
        )
}

/// Parse a model answer into an execution plan for `goal`.
///
/// Lines are scanned in order: a line opening with the next step number
/// starts a step and takes its command from between the first pair of
/// backticks after `Command:`; `Description:` and `Dependencies:` lines
/// fill the open step; a step is kept once both its command and its
/// description were seen.  When nothing can be parsed the plan holds the
/// single echo step for `goal`.  The context starts empty and the
/// estimate is one minute.
pub fn parse_plan_response(response: &str, goal: &str) -> (r: ExecutionPlan)
    ensures
        r.steps@.len() >= 1,
        r.context@.len() == 0,
        r.estimated_duration == 60,
        forall|i: int|
            0 <= i < r.steps@.len() ==> (is_parsed_step(#[trigger] r.steps@[i]) || is_echo_step(
                r.steps@[i],
                goal@,
            )),
        no_numbered_line(lines_spec(response@)) ==> r.steps@.len() == 1 && is_echo_step(
            r.steps@[0],
            goal@,
        ),
{
    let lines = split_lines(response);
    let mut steps: Vec<ExecutionStep> = Vec::new();
    let mut step_counter: u64 = 1;
    let mut current_command: Option<String> = None;
    let mut current_description: Option<String> = None;
    let mut current_dependencies: Vec<String> = Vec::new();
    let mut li: usize = 0;
    while li < lines.len()
        invariant
            views_of(lines@) == lines_spec(response@),
            1 <= step_counter,
            step_counter <= 1 + li,
            li <= lines@.len(),
            forall|i: int| 0 <= i < steps@.len() ==> is_parsed_step(#[trigger] steps@[i]),
            no_numbered_line(views_of(lines@).take(li as int)) ==> (steps@.len() == 0
                && current_command is None && step_counter == 1),
        decreases lines@.len() - li,
    {
        let line = trim_str(lines[li].as_str());
        let mut marker = u64_to_string(step_counter);
        marker.append(".");
        let opens_step = starts_with(line.as_str(), marker.as_str());
        proof {
            reveal_strlit(".");
            assert("."@ =~= seq!['.']);
            assert(marker@ == dec_str(step_counter as int) + seq!['.']);
            let vl = views_of(lines@);
            assert(vl.take(li + 1) =~= vl.take(li as int).push(vl[li as int]));
            if no_numbered_line(vl.take(li + 1)) {
                assert forall|j: int| 0 <= j < li implies !prefix_of(
                    dec_str(1) + seq!['.'],
                    trim_seq(#[trigger] vl.take(li as int)[j]),
                ) by {
                    assert(vl.take(li as int)[j] == vl.take(li + 1)[j]);
                }
                assert(no_numbered_line(vl.take(li as int)));
                assert(step_counter == 1);
                assert(vl.take(li + 1)[li as int] == vl[li as int]);
                assert(!prefix_of(dec_str(1) + seq!['.'], trim_seq(vl[li as int])));
                assert(!opens_step);
            }
        }
        if opens_step {
            let finished_command = current_command;
            let finished_description = current_description;
            current_command = None;
            current_description = None;
            if let Some(cmd) = finished_command {
                if let Some(desc) = finished_description {
                    let mut id = String::from_str("step_");
                    let num = u64_to_string(step_counter - 1);
                    id.append(num.as_str());
                    let deps = current_dependencies;
                    current_dependencies = Vec::new();
                    let step = ExecutionStep {
                        id,
                        command: cmd,
                        description: desc,
                        dependencies: deps,
                        expected_output: None,
                        retry_count: 0,
                    };
                    proof {
                        assert(prefix_of_step_id(step.id@)) by {
                            assert(step.id@ == "step_"@ + dec_str(step_counter - 1));
                        }
                    }
                    steps.push(step);
                }
            }
            current_dependencies = Vec::new();
            if let Some(command_start) = find_str(line.as_str(), "Command:") {
                let ln = line.as_str().unicode_len();
                proof {
                    reveal_strlit("Command:");
                }
                let after = line.as_str().substring_char(command_start + 8, ln);
                let command_part = trim_str(after);
                if let Some(first_backtick) = find_str(command_part.as_str(), "`") {
                    proof {
                        reveal_strlit("`");
                    }
                    let cn = command_part.as_str().unicode_len();
                    let after_first = command_part.as_str().substring_char(
                        first_backtick + 1,
                        cn,
                    );
                    if let Some(second_backtick) = find_str(after_first, "`") {
                        let inner = after_first.substring_char(0, second_backtick);
                        current_command = Some(String::from_str(inner));
                    } else {
                        current_command = Some(String::from_str(after_first));
                    }
                }
            }
            if step_counter < u64::MAX {
                step_counter = step_counter + 1;
            }
        } else if starts_with(line.as_str(), "Description:") {
            proof {
                reveal_strlit("Description:");
            }
            let ln = line.as_str().unicode_len();
            let after = line.as_str().substring_char(12, ln);
            current_description = Some(trim_str(after));
        } else if starts_with(line.as_str(), "Dependencies:") {
            proof {
                reveal_strlit("Dependencies:");
            }
            let ln = line.as_str().unicode_len();
            let after = line.as_str().substring_char(13, ln);
            let deps_str = trim_str(after);
            if !crate::text::str_eq(deps_str.as_str(), "None") {
                let pieces = crate::text::split_on(deps_str.as_str(), ',');
                let mut trimmed: Vec<String> = Vec::new();
                let mut pi: usize = 0;
                while pi < pieces.len()
                    decreases pieces@.len() - pi,
                {
                    trimmed.push(trim_str(pieces[pi].as_str()));
                    pi = pi + 1;
                }
                current_dependencies = trimmed;
            } else {
                current_dependencies = Vec::new();
            }
        }
        li = li + 1;
    }
    proof {
        assert(views_of(lines@).take(lines@.len() as int) =~= lines_spec(response@));
    }
    if let Some(cmd) = current_command {
        if let Some(desc) = current_description {
            let mut id = String::from_str("step_");
            let num = u64_to_string(if step_counter > 1 {
                step_counter - 1
            } else {
                1
            });
            id.append(num.as_str());
            let step = ExecutionStep {
                id,
                command: cmd,
                description: desc,
                dependencies: current_dependencies,
                expected_output: None,
                retry_count: 0,
            };
            proof {
                assert(prefix_of_step_id(step.id@)) by {
                    let n: int = if step_counter > 1 {
                        step_counter - 1
                    } else {
                        1
                    };
                    assert(step.id@ == "step_"@ + dec_str(n));
                }
            }
            steps.push(step);
        }
    }
    if steps.len() == 0 {
        let mut command = String::from_str("echo 'Goal: ");
        command.append(goal);
        command.append("'");
        let mut expected = String::from_str("Goal: ");
        expected.append(goal);
        let step = ExecutionStep {
            id: String::from_str("step_1"),
            command,
            description: String::from_str("Display the goal"),
            dependencies: Vec::new(),
            expected_output: Some(expected),
            retry_count: 0,
        };
        proof {
            assert(is_echo_step(step, goal@));
        }
        steps.push(step);
    }
    ExecutionPlan { steps, context: Vec::new(), estimated_duration: 60 }
}

/// The estimated running time of one step, in seconds: installations and
/// downloads get two minutes, builds and tests one, anything else ten
/// seconds.
pub open spec fn step_estimate(command: Seq<char>) -> int {
    if crate::text::contains_seq(command, "install"@) || crate::text::contains_seq(
        command,
        "download"@,
    ) {
        120
    } else if crate::text::contains_seq(command, "test"@) || crate::text::contains_seq(
        command,
        "build"@,
    ) {
        60
    } else {
        10
    }
}

/// The estimate of a whole plan: the sum over its steps.
pub open spec fn plan_estimate(steps: Seq<ExecutionStep>) -> int
    decreases steps.len(),
{
    if steps.len() == 0 {
        0
    } else {
        step_estimate(steps[0].command@) + plan_estimate(steps.drop_first())
    }
}

/// Estimate the running time of a plan, in seconds.
pub fn estimate_plan_duration(steps: &Vec<ExecutionStep>) -> (r: u64)
    requires
        steps@.len() <= 1000000,
    ensures
        r == plan_estimate(steps@),
{
    let mut total: u64 = 0;
    let mut i: usize = 0;
    proof {
        assert(steps@.skip(0) =~= steps@);
    }
    while i < steps.len()
        invariant
            0 <= i <= steps@.len() <= 1000000,
            total == plan_estimate(steps@.take(i as int)),
            total <= 120 * i,
        decreases steps@.len() - i,
    {
        proof {
            reveal_strlit("install");
            reveal_strlit("download");
            reveal_strlit("test");
            reveal_strlit("build");
        }
        let cmd = &steps[i].command;
        let e: u64 = if crate::text::contains_str(cmd.as_str(), "install")
            || crate::text::contains_str(cmd.as_str(), "download") {
            120
        } else if crate::text::contains_str(cmd.as_str(), "test") || crate::text::contains_str(
            cmd.as_str(),
            "build",
        ) {
            60
        } else {
            10
        };
        proof {
            lemma_plan_estimate_push(steps@.take(i as int), steps@[i as int]);
            assert(steps@.take(i + 1) =~= steps@.take(i as int).push(steps@[i as int]));
        }
        total = total + e;
        i = i + 1;
    }
    proof {
        assert(steps@.take(steps@.len() as int) =~= steps@);
    }
    total
}

proof fn lemma_plan_estimate_push(steps: Seq<ExecutionStep>, s: ExecutionStep)
    ensures
        plan_estimate(steps.push(s)) == plan_estimate(steps) + step_estimate(s.command@),
        plan_estimate(steps) >= 0,
    decreases steps.len(),
{
    assert(steps.push(s)[0] == if steps.len() == 0 {
        s
    } else {
        steps[0]
    });
    if steps.len() == 0 {
        assert(steps.push(s).drop_first() =~= Seq::<ExecutionStep>::empty());
        assert(plan_estimate(steps.push(s)) == step_estimate(s.command@) + plan_estimate(
            Seq::<ExecutionStep>::empty(),
        ));
    } else {
        assert(steps.push(s).drop_first() =~= steps.drop_first().push(s));
        lemma_plan_estimate_push(steps.drop_first(), s);
    }
}

} // verus!

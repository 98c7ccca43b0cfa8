//! Rendering performance helpers: frame limiting, dirty regions, virtual
//! scrolling, output truncation and lightweight syntax highlighting.
//!
//! Times are whole milliseconds.  The frame limiter consults the wall
//! clock through a trusted call; everything derived from the clock value
//! is computed and specified here.

use vstd::prelude::*;
use crate::history::{current_timestamp_ms, CommandExecution};
use crate::text::{contains_seq, contains_str, dec_str, join_lines, join_nl, lines_spec,
    prefix_of, replace_all, replace_seq, split_lines, starts_with, trim_start_seq,
    trim_start_str, u64_to_string, views_of};

verus! {

/// The pace shape of an animation; the interpolation itself runs in the
/// rendering layer.
#[derive(Clone, Copy, Debug, PartialEq, Eq, Structural)]
pub enum EasingFunction {
    Linear,
    EaseIn,
    EaseOut,
    EaseInOut,
}

/// A rectangular screen region waiting to be redrawn, with a priority.
#[derive(Clone, Copy, Debug, PartialEq, Eq, Structural)]
pub struct DirtyRegion {
    pub x: u16,
    pub y: u16,
    pub width: u16,
    pub height: u16,
    pub priority: u8,
}

/// Frame limiting, dirty-region bookkeeping and output truncation.
#[derive(Clone, Debug)]
pub struct PerformanceManager {
    pub max_history_size: usize,
    pub max_output_lines: usize,
    pub animation_frame_rate: u64,
    pub last_frame_ms: u64,
    pub dirty_regions: Vec<DirtyRegion>,
}

/// Whether a frame is due `now`, for a frame that last rendered at `last`
/// with `rate` frames per second; a clock that moved backwards counts as
/// no time passed.
pub open spec fn frame_due_spec(last: u64, now: u64, rate: u64) -> bool {
    (if now >= last {
        now - last
    } else {
        0
    }) >= 1000int / (rate as int)
}

/// Exec counterpart of `frame_due_spec`.
pub fn frame_due(last: u64, now: u64, rate: u64) -> (r: bool)
    requires
        rate > 0,
    ensures
        r == frame_due_spec(last, now, rate),
{
    let elapsed: u64 = if now >= last {
        now - last
    } else {
        0
    };
    elapsed >= 1000 / rate
}

/// The position in `regions` where a new region of priority `p` belongs:
/// just before the first strictly lower priority, keeping the sequence
/// sorted from high to low.
pub open spec fn insert_pos(regions: Seq<DirtyRegion>, p: u8) -> int
    decreases regions.len(),
{
    if regions.len() == 0 {
        0
    } else if regions[0].priority < p {
        0
    } else {
        1 + insert_pos(regions.drop_first(), p)
    }
}

proof fn lemma_insert_pos(regions: Seq<DirtyRegion>, p: u8, i: int)
    requires
        0 <= i <= regions.len(),
        forall|k: int| 0 <= k < i ==> regions[k].priority >= p,
        i < regions.len() ==> regions[i].priority < p,
    ensures
        insert_pos(regions, p) == i,
    decreases i,
{
    if i == 0 {
    } else {
        lemma_insert_pos(regions.drop_first(), p, i - 1);
    }
}

impl PerformanceManager {
    /// A manager with the built-in limits, no dirty regions, and the
    /// current time as the last frame time.
    pub fn new() -> (r: Self)
        ensures
            r.max_history_size == 1000,
            r.max_output_lines == 10000,
            r.animation_frame_rate == 60,
            r.dirty_regions@.len() == 0,
    {
        PerformanceManager {
            max_history_size: 1000,
            max_output_lines: 10000,
            animation_frame_rate: 60,
            last_frame_ms: current_timestamp_ms(),
            dirty_regions: Vec::new(),
        }
    }

    /// Check if a new frame should be rendered, at most
    /// `animation_frame_rate` times a second.  The decision depends on the
    /// wall clock; when a frame is due the last frame time moves to the
    /// clock value read, and otherwise nothing changes.
    pub fn should_render_frame(&mut self) -> (r: bool)
        requires
            old(self).animation_frame_rate > 0,
        ensures
            !r ==> *final(self) == *old(self),
            r ==> final(self).max_history_size == old(self).max_history_size
                && final(self).max_output_lines == old(self).max_output_lines
                && final(self).animation_frame_rate == old(self).animation_frame_rate
                && final(self).dirty_regions == old(self).dirty_regions,
            r ==> frame_due_spec(
                old(self).last_frame_ms,
                final(self).last_frame_ms,
                old(self).animation_frame_rate,
            ),
    {
        let now = current_timestamp_ms();
        if frame_due(self.last_frame_ms, now, self.animation_frame_rate) {
            self.last_frame_ms = now;
            true
        } else {
            false
        }
    }

    /// Mark a region as dirty.  The region is inserted keeping the list
    /// sorted by priority, highest first; among equal priorities the newer
    /// region comes later.
    pub fn mark_dirty(&mut self, x: u16, y: u16, width: u16, height: u16, priority: u8)
        ensures
            final(self).dirty_regions@ == old(self).dirty_regions@.insert(
                insert_pos(old(self).dirty_regions@, priority),
                DirtyRegion { x, y, width, height, priority },
            ),
            final(self).max_history_size == old(self).max_history_size,
            final(self).max_output_lines == old(self).max_output_lines,
            final(self).animation_frame_rate == old(self).animation_frame_rate,
            final(self).last_frame_ms == old(self).last_frame_ms,
    {
        let region = DirtyRegion { x, y, width, height, priority };
        let mut pos: usize = 0;
        while pos < self.dirty_regions.len() && self.dirty_regions[pos].priority >= priority
            invariant
                0 <= pos <= self.dirty_regions@.len(),
                forall|k: int|
                    0 <= k < pos ==> (#[trigger] self.dirty_regions@[k]).priority >= priority,
            decreases self.dirty_regions@.len() - pos,
        {
            pos = pos + 1;
        }
        proof {
            lemma_insert_pos(self.dirty_regions@, priority, pos as int);
        }
        self.dirty_regions.insert(pos, region);
    }

    /// Clear all dirty regions after rendering.
    pub fn clear_dirty_regions(&mut self)
        ensures
            final(self).dirty_regions@.len() == 0,
            final(self).max_history_size == old(self).max_history_size,
            final(self).max_output_lines == old(self).max_output_lines,
            final(self).animation_frame_rate == old(self).animation_frame_rate,
            final(self).last_frame_ms == old(self).last_frame_ms,
    {
        self.dirty_regions.clear();
    }

    /// Drop history entries beyond `max_history_size`, keeping the oldest
    /// prefix as the history vector orders it.
    pub fn optimize_command_history(&self, history: &mut Vec<CommandExecution>)
        ensures
            old(history)@.len() > self.max_history_size ==> final(history)@ == old(
                history,
            )@.take(self.max_history_size as int),
            old(history)@.len() <= self.max_history_size ==> final(history)@ == old(history)@,
    {
        if history.len() > self.max_history_size {
            history.truncate(self.max_history_size);
        }
    }

    /// The truncation notice appended when output is cut at `max` lines.
    pub open spec fn truncation_notice(dropped: int) -> Seq<char> {
        "\n\n... "@ + dec_str(dropped) + " more lines truncated for performance"@
    }

    /// Truncate large command outputs: text of at most `max_output_lines`
    /// lines passes through unchanged; longer text keeps its first
    /// `max_output_lines` lines and gains a notice with the dropped count.
    pub fn optimize_command_output(&self, output: &str) -> (r: String)
        ensures
            lines_spec(output@).len() <= self.max_output_lines ==> r@ == output@,
            lines_spec(output@).len() > self.max_output_lines ==> r@ == join_nl(
                lines_spec(output@).take(self.max_output_lines as int),
            ) + Self::truncation_notice(
                lines_spec(output@).len() - self.max_output_lines,
            ),
    {
        let mut lines = split_lines(output);
        if lines.len() <= self.max_output_lines {
            return String::from_str(output);
        }
        let dropped = lines.len() - self.max_output_lines;
        lines.truncate(self.max_output_lines);
        proof {
            assert(views_of(lines@) =~= lines_spec(output@).take(self.max_output_lines as int));
        }
        let mut s = join_lines(&lines);
        s.append("\n\n... ");
        let count = u64_to_string(dropped as u64);
        s.append(count.as_str());
        s.append(" more lines truncated for performance");
        s
    }
}

/// Virtual scrolling over a list of `total_items` items, each
/// `item_height` rows tall, inside a viewport of `viewport_height` rows.
#[derive(Clone, Debug)]
pub struct VirtualScroller {
    pub viewport_height: usize,
    pub total_items: usize,
    pub scroll_offset: usize,
    pub item_height: usize,
}

impl VirtualScroller {
    /// How many items fit in the viewport.
    pub open spec fn visible_items(self) -> int {
        self.viewport_height as int / self.item_height as int
    }

    /// The largest admissible scroll offset.
    pub open spec fn max_scroll_spec(self) -> int {
        if self.total_items >= self.visible_items() {
            self.total_items - self.visible_items()
        } else {
            0
        }
    }

    pub fn new(viewport_height: usize, item_height: usize) -> (r: Self)
        ensures
            r.viewport_height == viewport_height,
            r.item_height == item_height,
            r.total_items == 0,
            r.scroll_offset == 0,
    {
        VirtualScroller { viewport_height, total_items: 0, scroll_offset: 0, item_height }
    }

    /// Update the total number of items, clamping the offset back into
    /// range.
    pub fn update_total_items(&mut self, total: usize)
        requires
            old(self).item_height > 0,
        ensures
            final(self).total_items == total,
            final(self).viewport_height == old(self).viewport_height,
            final(self).item_height == old(self).item_height,
            final(self).scroll_offset == if old(self).scroll_offset
                <= final(self).max_scroll_spec() {
                old(self).scroll_offset as int
            } else {
                final(self).max_scroll_spec()
            },
    {
        self.total_items = total;
        self.clamp_scroll_offset();
    }

    /// The half-open range of visible items.
    pub fn get_visible_range(&self) -> (r: (usize, usize))
        requires
            self.item_height > 0,
            self.scroll_offset + self.visible_items() <= usize::MAX,
        ensures
            r.0 == self.scroll_offset,
            r.1 == if self.scroll_offset + self.visible_items() <= self.total_items {
                self.scroll_offset + self.visible_items()
            } else {
                self.total_items as int
            },
    {
        let visible = self.viewport_height / self.item_height;
        let start = self.scroll_offset;
        let unclamped = start + visible;
        let end = if unclamped <= self.total_items {
            unclamped
        } else {
            self.total_items
        };
        (start, end)
    }

    /// Scroll up by `amount`, stopping at the top.
    pub fn scroll_up(&mut self, amount: usize)
        ensures
            final(self).scroll_offset == if old(self).scroll_offset >= amount {
                old(self).scroll_offset - amount
            } else {
                0
            },
            final(self).viewport_height == old(self).viewport_height,
            final(self).item_height == old(self).item_height,
            final(self).total_items == old(self).total_items,
    {
        if self.scroll_offset >= amount {
            self.scroll_offset = self.scroll_offset - amount;
        } else {
            self.scroll_offset = 0;
        }
    }

    /// Scroll down by `amount`, stopping at the last page.
    pub fn scroll_down(&mut self, amount: usize)
        requires
            old(self).item_height > 0,
        ensures
            final(self).scroll_offset == if old(self).scroll_offset + amount
                <= old(self).max_scroll_spec() {
                old(self).scroll_offset + amount
            } else {
                old(self).max_scroll_spec()
            },
            final(self).viewport_height == old(self).viewport_height,
            final(self).item_height == old(self).item_height,
            final(self).total_items == old(self).total_items,
    {
        let m = self.max_scroll_offset();
        if self.scroll_offset >= m {
            self.scroll_offset = m;
        } else if amount <= m - self.scroll_offset {
            self.scroll_offset = self.scroll_offset + amount;
        } else {
            self.scroll_offset = m;
        }
    }

    /// Scroll so that `item_index` is visible: up to it when it lies above
    /// the viewport, down to the page ending at it when it lies below.
    pub fn scroll_to_item(&mut self, item_index: usize)
        requires
            old(self).item_height > 0,
            old(self).visible_items() >= 1,
        ensures
            final(self).viewport_height == old(self).viewport_height,
            final(self).item_height == old(self).item_height,
            final(self).total_items == old(self).total_items,
            final(self).scroll_offset == {
                let target = if item_index < old(self).scroll_offset {
                    item_index as int
                } else if item_index >= old(self).scroll_offset + old(self).visible_items() {
                    item_index - (old(self).visible_items() - 1)
                } else {
                    old(self).scroll_offset as int
                };
                if target <= old(self).max_scroll_spec() {
                    target
                } else {
                    old(self).max_scroll_spec()
                }
            },
    {
        let visible = self.viewport_height / self.item_height;
        if item_index < self.scroll_offset {
            self.scroll_offset = item_index;
        } else if item_index - self.scroll_offset >= visible {
            self.scroll_offset = item_index - (visible - 1);
        }
        self.clamp_scroll_offset();
    }

    /// Get the maximum scroll offset.
    pub fn max_scroll_offset(&self) -> (r: usize)
        requires
            self.item_height > 0,
        ensures
            r == self.max_scroll_spec(),
    {
        let visible = self.viewport_height / self.item_height;
        if self.total_items >= visible {
            self.total_items - visible
        } else {
            0
        }
    }

    /// Clamp the offset into the admissible range; kept separate so every
    /// mutator restores the bound the same way.
    pub fn clamp_scroll_offset(&mut self)
        requires
            old(self).item_height > 0,
        ensures
            final(self).viewport_height == old(self).viewport_height,
            final(self).item_height == old(self).item_height,
            final(self).total_items == old(self).total_items,
            final(self).scroll_offset == if old(self).scroll_offset
                <= old(self).max_scroll_spec() {
                old(self).scroll_offset as int
            } else {
                old(self).max_scroll_spec()
            },
    {
        let m = self.max_scroll_offset();
        if self.scroll_offset > m {
            self.scroll_offset = m;
        }
    }
}

/// The escape-coloured form of a keyword: blue.
pub open spec fn blue(kw: Seq<char>) -> Seq<char> {
    "\u{1b}[94m"@ + kw + "\u{1b}[0m"@
}

/// A Rust source line with the common keywords coloured, each keyword
/// replaced in turn.
pub open spec fn rust_highlight_line(l: Seq<char>) -> Seq<char> {
    let l1 = replace_seq(l, "fn"@, blue("fn"@));
    let l2 = replace_seq(l1, "let"@, blue("let"@));
    let l3 = replace_seq(l2, "mut"@, blue("mut"@));
    let l4 = replace_seq(l3, "pub"@, blue("pub"@));
    let l5 = replace_seq(l4, "struct"@, blue("struct"@));
    let l6 = replace_seq(l5, "impl"@, blue("impl"@));
    replace_seq(l6, "use"@, blue("use"@))
}

/// Whether a shell line opens with one of the common commands, after
/// leading whitespace.
pub open spec fn shell_command_start(l: Seq<char>) -> bool {
    let t = trim_start_seq(l);
    prefix_of("cd"@, t) || prefix_of("ls"@, t) || prefix_of("git"@, t) || prefix_of("cargo"@, t)
        || prefix_of("npm"@, t) || prefix_of("docker"@, t)
}

/// A shell line coloured green when it opens with a common command.
pub open spec fn shell_highlight_line(l: Seq<char>) -> Seq<char> {
    if shell_command_start(l) {
        "\u{1b}[92m"@ + l + "\u{1b}[0m"@
    } else {
        l
    }
}

/// A JSON-ish line with every colon coloured yellow.
pub open spec fn json_highlight_line(l: Seq<char>) -> Seq<char> {
    if contains_seq(l, ":"@) {
        replace_seq(l, ":"@, "\u{1b}[93m:\u{1b}[0m"@)
    } else {
        l
    }
}

/// The keyword wrapped in the blue escape codes.
fn blue_exec(kw: &str) -> (r: String)
    ensures
        r@ == blue(kw@),
{
    let mut s = String::from_str("\u{1b}[94m");
    s.append(kw);
    s.append("\u{1b}[0m");
    s
}

/// Exec counterpart of `rust_highlight_line`.
fn rust_highlight_exec(l: &str) -> (r: String)
    ensures
        r@ == rust_highlight_line(l@),
{
    proof {
        reveal_strlit("fn");
        reveal_strlit("let");
        reveal_strlit("mut");
        reveal_strlit("pub");
        reveal_strlit("struct");
        reveal_strlit("impl");
        reveal_strlit("use");
    }
    let b_fn = blue_exec("fn");
    let l1 = replace_all(l, "fn", b_fn.as_str());
    let b_let = blue_exec("let");
    let l2 = replace_all(l1.as_str(), "let", b_let.as_str());
    let b_mut = blue_exec("mut");
    let l3 = replace_all(l2.as_str(), "mut", b_mut.as_str());
    let b_pub = blue_exec("pub");
    let l4 = replace_all(l3.as_str(), "pub", b_pub.as_str());
    let b_struct = blue_exec("struct");
    let l5 = replace_all(l4.as_str(), "struct", b_struct.as_str());
    let b_impl = blue_exec("impl");
    let l6 = replace_all(l5.as_str(), "impl", b_impl.as_str());
    let b_use = blue_exec("use");
    replace_all(l6.as_str(), "use", b_use.as_str())
}

/// Exec counterpart of `shell_highlight_line`.
fn shell_highlight_exec(l: &str) -> (r: String)
    ensures
        r@ == shell_highlight_line(l@),
{
    let t = trim_start_str(l);
    let starts = starts_with(t.as_str(), "cd") || starts_with(t.as_str(), "ls") || starts_with(
        t.as_str(),
        "git",
    ) || starts_with(t.as_str(), "cargo") || starts_with(t.as_str(), "npm") || starts_with(
        t.as_str(),
        "docker",
    );
    if starts {
        let mut s = String::from_str("\u{1b}[92m");
        s.append(l);
        s.append("\u{1b}[0m");
        s
    } else {
        String::from_str(l)
    }
}

/// Exec counterpart of `json_highlight_line`.
fn json_highlight_exec(l: &str) -> (r: String)
    ensures
        r@ == json_highlight_line(l@),
{
    if contains_str(l, ":") {
        proof {
            reveal_strlit(":");
        }
        replace_all(l, ":", "\u{1b}[93m:\u{1b}[0m")
    } else {
        String::from_str(l)
    }
}

/// Which of the supported languages a tag names.
#[derive(Clone, Copy, Debug, PartialEq, Eq, Structural)]
enum HighlightKind {
    Rust,
    Shell,
    Json,
    Plain,
}

/// The per-line highlighting applied for each supported language.
pub open spec fn highlighted_lines(text: Seq<char>, language: Option<Seq<char>>) -> Seq<
    Seq<char>,
> {
    let ls = lines_spec(text);
    match language {
        Some(tag) => {
            if tag == "rust"@ {
                ls.map_values(|l: Seq<char>| rust_highlight_line(l))
            } else if tag == "bash"@ || tag == "shell"@ {
                ls.map_values(|l: Seq<char>| shell_highlight_line(l))
            } else if tag == "json"@ {
                ls.map_values(|l: Seq<char>| json_highlight_line(l))
            } else {
                ls
            }
        },
        None => ls,
    }
}

/// Text renderer with a bounded line cache and simple, line-wise syntax
/// highlighting.
#[derive(Clone, Debug)]
pub struct OptimizedTextRenderer {
    pub line_cache: Vec<String>,
    pub max_cache_size: usize,
}

impl OptimizedTextRenderer {
    pub fn new() -> (r: Self)
        ensures
            r.line_cache@.len() == 0,
            r.max_cache_size == 10000,
    {
        OptimizedTextRenderer { line_cache: Vec::new(), max_cache_size: 10000 }
    }

    /// Render text with simple syntax highlighting: the lines of `text`,
    /// each coloured according to `language`; an unknown or absent
    /// language passes the lines through unchanged.
    pub fn render_with_highlighting(&mut self, text: &str, language: Option<&str>) -> (r: Vec<
        String,
    >)
        ensures
            *final(self) == *old(self),
            views_of(r@) == highlighted_lines(
                text@,
                match language {
                    Some(tag) => Some(tag@),
                    None => None,
                },
            ),
    {
        let kind: HighlightKind = match language {
            Some(tag) => {
                if crate::text::str_eq(tag, "rust") {
                    HighlightKind::Rust
                } else if crate::text::str_eq(tag, "bash") || crate::text::str_eq(tag, "shell") {
                    HighlightKind::Shell
                } else if crate::text::str_eq(tag, "json") {
                    HighlightKind::Json
                } else {
                    HighlightKind::Plain
                }
            },
            None => HighlightKind::Plain,
        };
        let lines = split_lines(text);
        let ghost ls = lines_spec(text@);
        let ghost goal = highlighted_lines(
            text@,
            match language {
                Some(tag) => Some(tag@),
                None => None,
            },
        );
        if let HighlightKind::Plain = kind {
            proof {
                assert(views_of(lines@) == goal);
            }
            return lines;
        }
        let mut out: Vec<String> = Vec::new();
        let mut i: usize = 0;
        while i < lines.len()
            invariant
                views_of(lines@) == ls,
                0 <= i <= lines@.len(),
                kind != HighlightKind::Plain,
                goal == (match kind {
                    HighlightKind::Rust => ls.map_values(|l: Seq<char>| rust_highlight_line(l)),
                    HighlightKind::Shell => ls.map_values(
                        |l: Seq<char>| shell_highlight_line(l),
                    ),
                    HighlightKind::Json => ls.map_values(|l: Seq<char>| json_highlight_line(l)),
                    HighlightKind::Plain => ls,
                }),
                views_of(out@) =~= goal.take(i as int),
            decreases lines@.len() - i,
        {
            let h = match kind {
                HighlightKind::Rust => rust_highlight_exec(lines[i].as_str()),
                HighlightKind::Shell => shell_highlight_exec(lines[i].as_str()),
                HighlightKind::Json => json_highlight_exec(lines[i].as_str()),
                HighlightKind::Plain => String::from_str(lines[i].as_str()),
            };
            out.push(h);
            proof {
                assert(views_of(out@) =~= views_of(out@.drop_last()).push(h@));
                assert(goal.take(i + 1) =~= goal.take(i as int).push(goal[i as int]));
            }
            i = i + 1;
        }
        proof {
            assert(goal.take(lines@.len() as int) =~= goal);
        }
        out
    }

    /// Cache frequently used lines; when the cache is full the oldest
    /// entry leaves first.
    pub fn cache_line(&mut self, line: String)
        ensures
            final(self).max_cache_size == old(self).max_cache_size,
            (old(self).line_cache@.len() >= old(self).max_cache_size && old(
                self,
            ).line_cache@.len() > 0) ==> final(self).line_cache@ == old(
                self,
            ).line_cache@.drop_first().push(line),
            !(old(self).line_cache@.len() >= old(self).max_cache_size && old(
                self,
            ).line_cache@.len() > 0) ==> final(self).line_cache@ == old(
                self,
            ).line_cache@.push(line),
    {
        if self.line_cache.len() >= self.max_cache_size && self.line_cache.len() > 0 {
            self.line_cache.remove(0);
            proof {
                assert(self.line_cache@ =~= old(self).line_cache@.drop_first());
            }
        }
        self.line_cache.push(line);
    }
}

} // verus!

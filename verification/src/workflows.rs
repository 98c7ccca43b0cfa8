//! Workflow management.
//!
//! Workflow files are read and parsed by the surrounding application; the
//! verified part keeps the parsed workflows under their identifiers,
//! derives identifiers from file paths, substitutes arguments into
//! command templates and validates required arguments.  The collection
//! keeps at most one workflow per identifier.

use vstd::prelude::*;
use crate::text::{contains_ci, contains_seq, lower_seq, prefix_of, replace_all, replace_seq,
    split_sep, starts_with_ci, str_eq, views_of};

verus! {

/// One declared argument of a workflow.
#[derive(Clone, Debug)]
pub struct WorkflowArgument {
    pub name: String,
    pub description: String,
    pub default_value: Option<String>,
    pub required: bool,
}

/// One workflow: a named, tagged command template.
#[derive(Clone, Debug)]
pub struct Workflow {
    pub name: String,
    pub command: String,
    pub description: String,
    pub tags: Vec<String>,
    pub arguments: Vec<WorkflowArgument>,
    pub author: Option<String>,
    pub author_url: Option<String>,
    pub source_url: Option<String>,
    pub shells: Vec<String>,
}

/// The first position of the workflow with identifier `id`, or `-1`.
pub open spec fn id_index(ws: Seq<(String, Workflow)>, id: Seq<char>) -> int
    decreases ws.len(),
{
    if ws.len() == 0 {
        -1
    } else if ws[0].0@ == id {
        0
    } else {
        let r = id_index(ws.drop_first(), id);
        if r < 0 {
            -1
        } else {
            1 + r
        }
    }
}

/// `ws` with `(id, w)` installed: replacing the workflow under the same
/// identifier when there is one, appended otherwise.
pub open spec fn install_workflow(ws: Seq<(String, Workflow)>, entry: (String, Workflow)) -> Seq<
    (String, Workflow),
> {
    let i = id_index(ws, entry.0@);
    if i >= 0 {
        ws.update(i, entry)
    } else {
        ws.push(entry)
    }
}

/// `ws` after installing each entry of `loaded`, oldest first.
pub open spec fn install_all_workflows(
    ws: Seq<(String, Workflow)>,
    loaded: Seq<(String, Workflow)>,
) -> Seq<(String, Workflow)>
    decreases loaded.len(),
{
    if loaded.len() == 0 {
        ws
    } else {
        install_all_workflows(install_workflow(ws, loaded[0]), loaded.drop_first())
    }
}

/// The position of the last `c` in `s`, or `-1`.
pub open spec fn last_index_of(s: Seq<char>, c: char) -> int
    decreases s.len(),
{
    if s.len() == 0 {
        -1
    } else if s[s.len() - 1] == c {
        s.len() - 1
    } else {
        last_index_of(s.drop_last(), c)
    }
}

proof fn lemma_last_index(s: Seq<char>, c: char, i: int)
    requires
        0 <= i <= s.len(),
        forall|j: int| i <= j < s.len() ==> s[j] != c,
        i > 0 ==> s[i - 1] == c,
    ensures
        i > 0 ==> last_index_of(s, c) == i - 1,
        i == 0 ==> last_index_of(s, c) == -1,
    decreases s.len(),
{
    if s.len() > 0 {
        if i == s.len() {
        } else {
            lemma_last_index(s.drop_last(), c, i);
        }
    }
}

/// The position of the last `c` in `s`.
fn rfind_char(s: &str, c: char) -> (r: Option<usize>)
    ensures
        match r {
            Some(i) => last_index_of(s@, c) == i as int && i < s@.len(),
            None => last_index_of(s@, c) == -1,
        },
{
    let n = s.unicode_len();
    let mut i: usize = n;
    while i > 0
        invariant
            n == s@.len(),
            0 <= i <= n,
            forall|j: int| i <= j < n ==> s@[j] != c,
        decreases i,
    {
        if s.get_char(i - 1) == c {
            proof {
                lemma_last_index(s@, c, i as int);
            }
            return Some(i - 1);
        }
        i = i - 1;
    }
    proof {
        lemma_last_index(s@, c, 0);
    }
    None
}

/// `s` with its extension removed: everything after the last dot goes,
/// and a dotless text stays whole.
pub open spec fn strip_extension(s: Seq<char>) -> Seq<char> {
    let d = last_index_of(s, '.');
    if d >= 0 {
        s.take(d)
    } else {
        s
    }
}

/// Exec counterpart of `strip_extension`.
fn strip_extension_exec(s: &str) -> (r: String)
    ensures
        r@ == strip_extension(s@),
{
    match rfind_char(s, '.') {
        Some(d) => {
            let piece = s.substring_char(0, d);
            proof {
                assert(s@.subrange(0, d as int) =~= s@.take(d as int));
            }
            String::from_str(piece)
        },
        None => String::from_str(s),
    }
}

/// The identifier a workflow file gets: the path relative to its base
/// directory, without the file extension and with backslashes written as
/// forward slashes; a file outside the base directory falls back to its
/// bare file name, or `unknown` when even that is empty.
pub open spec fn workflow_id_of(file_path: Seq<char>, base_dir: Seq<char>) -> Seq<char> {
    if prefix_of(base_dir, file_path) {
        let r0 = file_path.skip(base_dir.len() as int);
        let rel = if r0.len() > 0 && r0[0] == '/' {
            r0.drop_first()
        } else {
            r0
        };
        replace_seq(strip_extension(rel), "\\"@, "/"@)
    } else {
        let after = file_path.skip(last_index_of(file_path, '/') + 1);
        let stem = strip_extension(after);
        if stem.len() == 0 {
            "unknown"@
        } else {
            stem
        }
    }
}

/// The placeholder that stands for `name` in a command template.
pub open spec fn placeholder_of(name: Seq<char>) -> Seq<char> {
    "{{"@ + name + "}}"@
}

/// `cmd` with each provided argument substituted for its placeholder, in
/// the order the arguments are given.
pub open spec fn apply_args(cmd: Seq<char>, args: Seq<(String, String)>) -> Seq<char>
    decreases args.len(),
{
    if args.len() == 0 {
        cmd
    } else {
        apply_args(
            replace_seq(cmd, placeholder_of(args[0].0@), args[0].1@),
            args.drop_first(),
        )
    }
}

/// The message of a missing required argument.
pub open spec fn missing_arg_message(name: Seq<char>, id: Seq<char>) -> Seq<char> {
    "Required argument '"@ + name + "' not provided for workflow '"@ + id + "'"@
}

/// The message of an unknown workflow identifier.
pub open spec fn unknown_workflow_message(id: Seq<char>) -> Seq<char> {
    "Workflow '"@ + id + "' not found"@
}

/// `cmd` with remaining placeholders filled from the declared defaults: a
/// placeholder with a default is substituted, one of a required argument
/// without a default is an error, any other is left standing.
pub open spec fn finish_defaults(
    cmd: Seq<char>,
    wargs: Seq<WorkflowArgument>,
    id: Seq<char>,
) -> Result<Seq<char>, Seq<char>>
    decreases wargs.len(),
{
    if wargs.len() == 0 {
        Ok(cmd)
    } else {
        let p = placeholder_of(wargs[0].name@);
        if contains_seq(cmd, p) {
            match wargs[0].default_value {
                Some(d) => finish_defaults(replace_seq(cmd, p, d@), wargs.drop_first(), id),
                None => {
                    if wargs[0].required {
                        Err(missing_arg_message(wargs[0].name@, id))
                    } else {
                        finish_defaults(cmd, wargs.drop_first(), id)
                    }
                },
            }
        } else {
            finish_defaults(cmd, wargs.drop_first(), id)
        }
    }
}

/// Whether `args` provides a value under `name`.
pub open spec fn provides(args: Seq<(String, String)>, name: Seq<char>) -> bool {
    exists|i: int| 0 <= i < args.len() && args[i].0@ == name
}

/// The first declared argument that is required, not provided and
/// without a default, or `-1`.
pub open spec fn first_missing(
    wargs: Seq<WorkflowArgument>,
    args: Seq<(String, String)>,
) -> int
    decreases wargs.len(),
{
    if wargs.len() == 0 {
        -1
    } else if wargs[0].required && !provides(args, wargs[0].name@) && wargs[0].default_value
        is None {
        0
    } else {
        let r = first_missing(wargs.drop_first(), args);
        if r < 0 {
            -1
        } else {
            1 + r
        }
    }
}

/// Builds the placeholder string for `name`.
fn placeholder_exec(name: &str) -> (r: String)
    ensures
        r@ == placeholder_of(name@),
{
    let mut s = String::from_str("{{");
    s.append(name);
    s.append("}}");
    s
}

/// Whether `args` carries a pair keyed `name`.
fn provides_exec(args: &Vec<(String, String)>, name: &str) -> (r: bool)
    ensures
        r == provides(args@, name@),
{
    let mut i: usize = 0;
    while i < args.len()
        invariant
            0 <= i <= args@.len(),
            forall|k: int| 0 <= k < i ==> (#[trigger] args@[k]).0@ != name@,
        decreases args@.len() - i,
    {
        if str_eq(args[i].0.as_str(), name) {
            return true;
        }
        i = i + 1;
    }
    false
}

/// Keeps the loaded workflows under their identifiers, the directories
/// they come from, and the favourites.
#[derive(Debug)]
pub struct WorkflowManager {
    pub workflows: Vec<(String, Workflow)>,
    pub workflow_directories: Vec<String>,
    pub favorites: Vec<String>,
}

impl WorkflowManager {
    /// A manager with no workflows, the two built-in directories and no
    /// favourites.
    pub fn new() -> (r: Self)
        ensures
            r.workflows@.len() == 0,
            views_of(r.workflow_directories@) == seq!["workflows"@, "~/.agentic/workflows"@],
            r.favorites@.len() == 0,
    {
        let mut dirs: Vec<String> = Vec::new();
        dirs.push(String::from_str("workflows"));
        dirs.push(String::from_str("~/.agentic/workflows"));
        proof {
            assert(views_of(dirs@) =~= seq!["workflows"@, "~/.agentic/workflows"@]);
        }
        WorkflowManager { workflows: Vec::new(), workflow_directories: dirs, favorites: Vec::new() }
    }

    /// Remember one more directory to load workflows from.
    pub fn add_workflow_directory(&mut self, path: &str)
        ensures
            views_of(final(self).workflow_directories@) == views_of(
                old(self).workflow_directories@,
            ).push(path@),
            final(self).workflows == old(self).workflows,
            final(self).favorites == old(self).favorites,
    {
        self.workflow_directories.push(String::from_str(path));
        proof {
            assert(views_of(self.workflow_directories@) =~= views_of(
                old(self).workflow_directories@,
            ).push(path@));
        }
    }

    /// Derive the identifier for a workflow file under a base directory.
    pub fn generate_workflow_id(&self, file_path: &str, base_dir: &str) -> (r: String)
        ensures
            r@ == workflow_id_of(file_path@, base_dir@),
    {
        proof {
            reveal_strlit("\\");
        }
        if crate::text::starts_with(file_path, base_dir) {
            let n = file_path.unicode_len();
            let b = base_dir.unicode_len();
            let r0 = file_path.substring_char(b, n);
            proof {
                assert(file_path@.subrange(b as int, n as int) =~= file_path@.skip(b as int));
            }
            let rel: &str = if r0.unicode_len() > 0 && r0.get_char(0) == '/' {
                let stripped = r0.substring_char(1, r0.unicode_len());
                proof {
                    assert(r0@.subrange(1, r0@.len() as int) =~= r0@.drop_first());
                }
                stripped
            } else {
                r0
            };
            let stripped = strip_extension_exec(rel);
            replace_all(stripped.as_str(), "\\", "/")
        } else {
            let n = file_path.unicode_len();
            let after: &str = match rfind_char(file_path, '/') {
                Some(i) => {
                    let piece = file_path.substring_char(i + 1, n);
                    proof {
                        assert(file_path@.subrange(i + 1, file_path@.len() as int)
                            =~= file_path@.skip(i + 1));
                    }
                    piece
                },
                None => {
                    proof {
                        assert(file_path@.skip(0) =~= file_path@);
                    }
                    file_path
                },
            };
            let stem = strip_extension_exec(after);
            if stem.as_str().unicode_len() == 0 {
                String::from_str("unknown")
            } else {
                stem
            }
        }
    }

    /// Install one workflow under its identifier, replacing any workflow
    /// already stored under it.
    pub fn add_workflow(&mut self, id: String, workflow: Workflow)
        ensures
            final(self).workflows@ == install_workflow(old(self).workflows@, (id, workflow)),
            final(self).workflow_directories == old(self).workflow_directories,
            final(self).favorites == old(self).favorites,
    {
        match find_id(&self.workflows, id.as_str()) {
            Some(i) => {
                self.workflows.set(i, (id, workflow));
            },
            None => {
                self.workflows.push((id, workflow));
            },
        }
    }

    /// Take in the workflows parsed from the managed directories, in the
    /// order they were found; a later workflow replaces an earlier one
    /// under the same identifier.
    pub fn load_workflows(&mut self, loaded: Vec<(String, Workflow)>)
        ensures
            final(self).workflows@ == install_all_workflows(old(self).workflows@, loaded@),
            final(self).workflow_directories == old(self).workflow_directories,
            final(self).favorites == old(self).favorites,
    {
        let ghost all = loaded@;
        let mut rest = loaded;
        while rest.len() > 0
            invariant
                install_all_workflows(old(self).workflows@, all) == install_all_workflows(
                    self.workflows@,
                    rest@,
                ),
                self.workflow_directories == old(self).workflow_directories,
                self.favorites == old(self).favorites,
            decreases rest@.len(),
        {
            let ghost before = rest@;
            let entry = rest.remove(0);
            proof {
                assert(rest@ =~= before.drop_first());
            }
            self.add_workflow(entry.0, entry.1);
        }
    }

    /// Drop every workflow and take in the freshly parsed ones.
    pub fn reload_workflows(&mut self, loaded: Vec<(String, Workflow)>)
        ensures
            final(self).workflows@ == install_all_workflows(
                Seq::<(String, Workflow)>::empty(),
                loaded@,
            ),
            final(self).workflow_directories == old(self).workflow_directories,
            final(self).favorites == old(self).favorites,
    {
        self.workflows.clear();
        self.load_workflows(loaded);
    }

    /// The workflow stored under `id`, if any.
    pub fn get_workflow(&self, id: &str) -> (r: Option<&Workflow>)
        ensures
            match r {
                Some(w) => id_index(self.workflows@, id@) >= 0 && *w == self.workflows@[id_index(
                    self.workflows@,
                    id@,
                )].1,
                None => id_index(self.workflows@, id@) == -1,
            },
    {
        match find_id(&self.workflows, id) {
            Some(i) => Some(&self.workflows[i].1),
            None => None,
        }
    }

    /// Every stored workflow with its identifier, in load order.
    pub fn list_workflows(&self) -> (r: Vec<(&String, &Workflow)>)
        ensures
            r@.len() == self.workflows@.len(),
            forall|i: int|
                0 <= i < r@.len() ==> *((#[trigger] r@[i]).0) == self.workflows@[i].0 && *(
                r@[i].1) == self.workflows@[i].1,
    {
        let mut out: Vec<(&String, &Workflow)> = Vec::new();
        let mut i: usize = 0;
        while i < self.workflows.len()
            invariant
                0 <= i <= self.workflows@.len(),
                out@.len() == i,
                forall|k: int|
                    0 <= k < i ==> *((#[trigger] out@[k]).0) == self.workflows@[k].0 && *(
                    out@[k].1) == self.workflows@[k].1,
            decreases self.workflows@.len() - i,
        {
            let entry = &self.workflows[i];
            out.push((&entry.0, &entry.1));
            i = i + 1;
        }
        out
    }

    /// The stored workflows matching `query` in identifier, name,
    /// description or tags, ignoring ASCII case, exactly and in load
    /// order.
    pub fn search_workflows(&self, query: &str) -> (r: Vec<(&String, &Workflow)>)
        ensures
            r@.len() == self.workflows@.filter(
                |e: (String, Workflow)| workflow_matches(e.0, e.1, query@),
            ).len(),
            forall|i: int|
                0 <= i < r@.len() ==> {
                    let kept = self.workflows@.filter(
                        |e: (String, Workflow)| workflow_matches(e.0, e.1, query@),
                    );
                    *((#[trigger] r@[i]).0) == kept[i].0 && *(r@[i].1) == kept[i].1
                },
    {
        let ghost vs = self.workflows@;
        let ghost pred = |e: (String, Workflow)| workflow_matches(e.0, e.1, query@);
        let mut out: Vec<(&String, &Workflow)> = Vec::new();
        let mut i: usize = 0;
        proof {
            reveal(Seq::filter);
            assert(vs.take(0) =~= Seq::<(String, Workflow)>::empty());
        }
        while i < self.workflows.len()
            invariant
                vs == self.workflows@,
                pred == (|e: (String, Workflow)| workflow_matches(e.0, e.1, query@)),
                0 <= i <= vs.len(),
                out@.len() == vs.take(i as int).filter(pred).len(),
                forall|k: int|
                    0 <= k < out@.len() ==> *((#[trigger] out@[k]).0) == vs.take(
                        i as int,
                    ).filter(pred)[k].0 && *(out@[k].1) == vs.take(i as int).filter(pred)[k].1,
            decreases vs.len() - i,
        {
            proof {
                assert(vs.take(i + 1) =~= vs.take(i as int).push(vs[i as int]));
                vs.take(i as int).lemma_filter_push(vs[i as int], pred);
            }
            let entry = &self.workflows[i];
            let mut hit = contains_ci(entry.0.as_str(), query);
            if !hit {
                hit = contains_ci(entry.1.name.as_str(), query);
            }
            if !hit {
                hit = contains_ci(entry.1.description.as_str(), query);
            }
            if !hit {
                hit = any_tag_contains_ci(&entry.1.tags, query);
            }
            if hit {
                out.push((&entry.0, &entry.1));
            }
            i = i + 1;
        }
        proof {
            assert(vs.take(vs.len() as int) =~= vs);
        }
        out
    }

    /// The stored workflows carrying `tag` verbatim, exactly and in load
    /// order.
    pub fn get_workflows_by_tag(&self, tag: &str) -> (r: Vec<(&String, &Workflow)>)
        ensures
            r@.len() == self.workflows@.filter(
                |e: (String, Workflow)| workflow_has_tag(e.1, tag@),
            ).len(),
            forall|i: int|
                0 <= i < r@.len() ==> {
                    let kept = self.workflows@.filter(
                        |e: (String, Workflow)| workflow_has_tag(e.1, tag@),
                    );
                    *((#[trigger] r@[i]).0) == kept[i].0 && *(r@[i].1) == kept[i].1
                },
    {
        let ghost vs = self.workflows@;
        let ghost pred = |e: (String, Workflow)| workflow_has_tag(e.1, tag@);
        let mut out: Vec<(&String, &Workflow)> = Vec::new();
        let mut i: usize = 0;
        proof {
            reveal(Seq::filter);
            assert(vs.take(0) =~= Seq::<(String, Workflow)>::empty());
        }
        while i < self.workflows.len()
            invariant
                vs == self.workflows@,
                pred == (|e: (String, Workflow)| workflow_has_tag(e.1, tag@)),
                0 <= i <= vs.len(),
                out@.len() == vs.take(i as int).filter(pred).len(),
                forall|k: int|
                    0 <= k < out@.len() ==> *((#[trigger] out@[k]).0) == vs.take(
                        i as int,
                    ).filter(pred)[k].0 && *(out@[k].1) == vs.take(i as int).filter(pred)[k].1,
            decreases vs.len() - i,
        {
            proof {
                assert(vs.take(i + 1) =~= vs.take(i as int).push(vs[i as int]));
                vs.take(i as int).lemma_filter_push(vs[i as int], pred);
            }
            let entry = &self.workflows[i];
            if tag_list_contains(&entry.1.tags, tag) {
                out.push((&entry.0, &entry.1));
            }
            i = i + 1;
        }
        proof {
            assert(vs.take(vs.len() as int) =~= vs);
        }
        out
    }

    /// The stored workflows grouped by each tag they carry; a group's
    /// members all carry the group's tag.
    pub fn get_workflow_categories(&self) -> (r: Vec<(String, Vec<(&String, &Workflow)>)>)
        ensures
            forall|c: int|
                0 <= c < r@.len() ==> forall|i: int|
                    0 <= i < (#[trigger] r@[c]).1@.len() ==> workflow_has_tag(
                        *((#[trigger] r@[c].1@[i]).1),
                        r@[c].0@,
                    ),
    {
        let mut out: Vec<(String, Vec<(&String, &Workflow)>)> = Vec::new();
        let mut i: usize = 0;
        while i < self.workflows.len()
            invariant
                0 <= i <= self.workflows@.len(),
                forall|c: int|
                    0 <= c < out@.len() ==> forall|k: int|
                        0 <= k < (#[trigger] out@[c]).1@.len() ==> workflow_has_tag(
                            *((#[trigger] out@[c].1@[k]).1),
                            out@[c].0@,
                        ),
            decreases self.workflows@.len() - i,
        {
            let entry = &self.workflows[i];
            let mut t: usize = 0;
            while t < entry.1.tags.len()
                invariant
                    0 <= t <= entry.1.tags@.len(),
                    entry == &self.workflows[i as int],
                    0 <= i < self.workflows@.len(),
                    forall|c: int|
                        0 <= c < out@.len() ==> forall|k: int|
                            0 <= k < (#[trigger] out@[c]).1@.len() ==> workflow_has_tag(
                                *((#[trigger] out@[c].1@[k]).1),
                                out@[c].0@,
                            ),
                decreases entry.1.tags@.len() - t,
            {
                let tag = &entry.1.tags[t];
                if workflow_tag_holds(&entry.1, tag.as_str()) {
                    let mut idx: Option<usize> = None;
                    let mut c: usize = 0;
                    while c < out.len()
                        invariant
                            0 <= c <= out@.len(),
                            match idx {
                                Some(ci) => ci < out@.len() && out@[ci as int].0@ == tag@,
                                None => true,
                            },
                        decreases out@.len() - c,
                    {
                        if str_eq(out[c].0.as_str(), tag.as_str()) {
                            if idx.is_none() {
                                idx = Some(c);
                            }
                        }
                        c = c + 1;
                    }
                    let pair = (&entry.0, &entry.1);
                    match idx {
                        Some(ci) => {
                            let mut group = out.remove(ci);
                            group.1.push(pair);
                            out.insert(ci, group);
                        },
                        None => {
                            let mut group: Vec<(&String, &Workflow)> = Vec::new();
                            group.push(pair);
                            out.push((tag.clone(), group));
                        },
                    }
                }
                t = t + 1;
            }
            i = i + 1;
        }
        out
    }

    /// Remember `workflow_id` as a favourite, once.
    pub fn add_favorite(&mut self, workflow_id: &str)
        ensures
            final(self).workflows == old(self).workflows,
            final(self).workflow_directories == old(self).workflow_directories,
            provides_fav(old(self).favorites@, workflow_id@) ==> final(self).favorites == old(
                self,
            ).favorites,
            !provides_fav(old(self).favorites@, workflow_id@) ==> views_of(
                final(self).favorites@,
            ) == views_of(old(self).favorites@).push(workflow_id@),
    {
        if !fav_contains(&self.favorites, workflow_id) {
            self.favorites.push(String::from_str(workflow_id));
            proof {
                assert(views_of(self.favorites@) =~= views_of(old(self).favorites@).push(
                    workflow_id@,
                ));
            }
        }
    }

    /// Forget `workflow_id` as a favourite.
    pub fn remove_favorite(&mut self, workflow_id: &str)
        ensures
            final(self).workflows == old(self).workflows,
            final(self).workflow_directories == old(self).workflow_directories,
            views_of(final(self).favorites@) == views_of(old(self).favorites@).filter(
                |f: Seq<char>| f != workflow_id@,
            ),
    {
        let mut out: Vec<String> = Vec::new();
        let ghost vs = views_of(self.favorites@);
        let ghost pred = |f: Seq<char>| f != workflow_id@;
        let mut i: usize = 0;
        proof {
            reveal(Seq::filter);
            assert(vs.take(0) =~= Seq::<Seq<char>>::empty());
            assert(views_of(out@) =~= vs.take(0).filter(pred));
        }
        while i < self.favorites.len()
            invariant
                vs == views_of(self.favorites@),
                pred == (|f: Seq<char>| f != workflow_id@),
                0 <= i <= vs.len(),
                views_of(out@) == vs.take(i as int).filter(pred),
                self.workflows == old(self).workflows,
                self.workflow_directories == old(self).workflow_directories,
                self.favorites == old(self).favorites,
            decreases vs.len() - i,
        {
            proof {
                assert(vs.take(i + 1) =~= vs.take(i as int).push(vs[i as int]));
                vs.take(i as int).lemma_filter_push(vs[i as int], pred);
            }
            if !str_eq(self.favorites[i].as_str(), workflow_id) {
                out.push(self.favorites[i].clone());
                proof {
                    assert(views_of(out@) =~= views_of(out@.drop_last()).push(vs[i as int]));
                }
            }
            i = i + 1;
        }
        proof {
            assert(vs.take(vs.len() as int) =~= vs);
        }
        self.favorites = out;
    }

    /// Whether `workflow_id` is a favourite.
    pub fn is_favorite(&self, workflow_id: &str) -> (r: bool)
        ensures
            r == provides_fav(self.favorites@, workflow_id@),
    {
        fav_contains(&self.favorites, workflow_id)
    }

    /// The favourites that still name a stored workflow, each with that
    /// workflow, in favourite order.
    pub fn get_favorites(&self) -> (r: Vec<(&String, &Workflow)>)
        ensures
            r@.len() <= self.favorites@.len(),
            forall|i: int|
                0 <= i < r@.len() ==> id_index(self.workflows@, (#[trigger] r@[i]).0@) >= 0 && *(
                r@[i].1) == self.workflows@[id_index(self.workflows@, r@[i].0@)].1,
    {
        let mut out: Vec<(&String, &Workflow)> = Vec::new();
        let mut i: usize = 0;
        while i < self.favorites.len()
            invariant
                0 <= i <= self.favorites@.len(),
                out@.len() <= i,
                forall|k: int|
                    0 <= k < out@.len() ==> id_index(self.workflows@, (#[trigger] out@[k]).0@)
                        >= 0 && *(out@[k].1) == self.workflows@[id_index(
                        self.workflows@,
                        out@[k].0@,
                    )].1,
            decreases self.favorites@.len() - i,
        {
            let id = &self.favorites[i];
            match find_id(&self.workflows, id.as_str()) {
                Some(j) => {
                    out.push((id, &self.workflows[j].1));
                },
                None => {},
            }
            i = i + 1;
        }
        out
    }

    /// Build the command of the workflow under `workflow_id`: provided
    /// arguments replace their placeholders first, remaining placeholders
    /// fall back to declared defaults, and a required argument with
    /// neither is an error, as is an unknown identifier.
    pub fn execute_workflow(&self, workflow_id: &str, args: Vec<(String, String)>) -> (r: Result<
        String,
        String,
    >)
        ensures
            id_index(self.workflows@, workflow_id@) == -1 ==> (r matches Err(m) && m@
                == unknown_workflow_message(workflow_id@)),
            id_index(self.workflows@, workflow_id@) >= 0 ==> {
                let w = self.workflows@[id_index(self.workflows@, workflow_id@)].1;
                let filled = finish_defaults(
                    apply_args(w.command@, args@),
                    w.arguments@,
                    workflow_id@,
                );
                match r {
                    Ok(c) => filled == Ok::<Seq<char>, Seq<char>>(c@),
                    Err(m) => filled == Err::<Seq<char>, Seq<char>>(m@),
                }
            },
    {
        let w = match find_id(&self.workflows, workflow_id) {
            Some(j) => &self.workflows[j].1,
            None => {
                let mut m = String::from_str("Workflow '");
                m.append(workflow_id);
                m.append("' not found");
                return Err(m);
            },
        };
        let mut command = String::from_str(w.command.as_str());
        let ghost all_args = args@;
        let mut rest = args;
        while rest.len() > 0
            invariant
                id_index(self.workflows@, workflow_id@) >= 0,
                *w == self.workflows@[id_index(self.workflows@, workflow_id@)].1,
                all_args == args@,
                apply_args(w.command@, all_args) == apply_args(command@, rest@),
            decreases rest@.len(),
        {
            let ghost before = rest@;
            let pair = rest.remove(0);
            proof {
                assert(rest@ =~= before.drop_first());
            }
            let p = placeholder_exec(pair.0.as_str());
            proof {
                assert(p@.len() > 0) by {
                    reveal_strlit("{{");
                }
            }
            command = replace_all(command.as_str(), p.as_str(), pair.1.as_str());
        }
        proof {
            assert(w.arguments@.skip(0) =~= w.arguments@);
        }
        let mut k: usize = 0;
        while k < w.arguments.len()
            invariant
                id_index(self.workflows@, workflow_id@) >= 0,
                *w == self.workflows@[id_index(self.workflows@, workflow_id@)].1,
                0 <= k <= w.arguments@.len(),
                all_args == args@,
                finish_defaults(apply_args(w.command@, all_args), w.arguments@, workflow_id@)
                    == finish_defaults(command@, w.arguments@.skip(k as int), workflow_id@),
            decreases w.arguments@.len() - k,
        {
            let ghost wrest = w.arguments@.skip(k as int);
            let arg = &w.arguments[k];
            proof {
                assert(wrest[0] == w.arguments@[k as int]);
                assert(wrest.drop_first() =~= w.arguments@.skip(k + 1));
            }
            let p = placeholder_exec(arg.name.as_str());
            proof {
                assert(p@.len() > 0) by {
                    reveal_strlit("{{");
                }
            }
            if crate::text::contains_str(command.as_str(), p.as_str()) {
                match &arg.default_value {
                    Some(d) => {
                        command = replace_all(command.as_str(), p.as_str(), d.as_str());
                    },
                    None => {
                        if arg.required {
                            let mut m = String::from_str("Required argument '");
                            m.append(arg.name.as_str());
                            m.append("' not provided for workflow '");
                            m.append(workflow_id);
                            m.append("'");
                            return Err(m);
                        }
                    },
                }
            }
            k = k + 1;
        }
        proof {
            assert(w.arguments@.skip(w.arguments@.len() as int) =~= Seq::<
                WorkflowArgument,
            >::empty());
        }
        Ok(command)
    }

    /// Check that every required argument of the workflow under
    /// `workflow_id` is provided or has a default; the first missing one
    /// is reported, as is an unknown identifier.
    pub fn validate_workflow_args(&self, workflow_id: &str, args: &Vec<(String, String)>) -> (r:
        Result<(), String>)
        ensures
            id_index(self.workflows@, workflow_id@) == -1 ==> (r matches Err(m) && m@
                == unknown_workflow_message(workflow_id@)),
            id_index(self.workflows@, workflow_id@) >= 0 ==> {
                let w = self.workflows@[id_index(self.workflows@, workflow_id@)].1;
                let miss = first_missing(w.arguments@, args@);
                match r {
                    Ok(_) => miss == -1,
                    Err(m) => miss >= 0 && m@ == missing_message_of(
                        w.arguments@[miss].name@,
                        workflow_id@,
                    ),
                }
            },
    {
        let w = match find_id(&self.workflows, workflow_id) {
            Some(j) => &self.workflows[j].1,
            None => {
                let mut m = String::from_str("Workflow '");
                m.append(workflow_id);
                m.append("' not found");
                return Err(m);
            },
        };
        let mut k: usize = 0;
        while k < w.arguments.len()
            invariant
                id_index(self.workflows@, workflow_id@) >= 0,
                *w == self.workflows@[id_index(self.workflows@, workflow_id@)].1,
                0 <= k <= w.arguments@.len(),
                forall|j: int|
                    0 <= j < k ==> !((#[trigger] w.arguments@[j]).required && !provides(
                        args@,
                        w.arguments@[j].name@,
                    ) && w.arguments@[j].default_value is None),
            decreases w.arguments@.len() - k,
    {
            let arg = &w.arguments[k];
            let has_default = match &arg.default_value {
                Some(_) => true,
                None => false,
            };
            if arg.required && !provides_exec(args, arg.name.as_str()) && !has_default {
                proof {
                    lemma_first_missing(w.arguments@, args@, k as int);
                }
                let mut m = String::from_str("Required argument '");
                m.append(arg.name.as_str());
                m.append("' missing for workflow '");
                m.append(workflow_id);
                m.append("'");
                return Err(m);
            }
            k = k + 1;
        }
        proof {
            lemma_first_missing(w.arguments@, args@, w.arguments@.len() as int);
        }
        Ok(())
    }

    /// The stored workflows whose identifier opens with `partial_input`
    /// or whose name contains it, ignoring ASCII case; at most ten.
    pub fn get_workflow_suggestions(&self, partial_input: &str) -> (r: Vec<(&String, &Workflow)>)
        ensures
            r@.len() <= 10,
            forall|i: int|
                0 <= i < r@.len() ==> (prefix_of(
                    lower_seq(partial_input@),
                    lower_seq((*((#[trigger] r@[i]).0))@),
                ) || contains_seq(lower_seq((*(r@[i].1)).name@), lower_seq(partial_input@))),
    {
        let mut out: Vec<(&String, &Workflow)> = Vec::new();
        let mut i: usize = 0;
        while i < self.workflows.len()
            invariant
                0 <= i <= self.workflows@.len(),
                out@.len() <= 10,
                forall|k: int|
                    0 <= k < out@.len() ==> (prefix_of(
                        lower_seq(partial_input@),
                        lower_seq((*((#[trigger] out@[k]).0))@),
                    ) || contains_seq(
                        lower_seq((*(out@[k].1)).name@),
                        lower_seq(partial_input@),
                    )),
            decreases self.workflows@.len() - i,
        {
            if out.len() >= 10 {
                return out;
            }
            let entry = &self.workflows[i];
            let mut hit = starts_with_ci(entry.0.as_str(), partial_input);
            if !hit {
                hit = contains_ci(entry.1.name.as_str(), partial_input);
            }
            if hit {
                out.push((&entry.0, &entry.1));
            }
            i = i + 1;
        }
        out
    }
}

/// The message of a required argument found missing during validation.
pub open spec fn missing_message_of(name: Seq<char>, id: Seq<char>) -> Seq<char> {
    "Required argument '"@ + name + "' missing for workflow '"@ + id + "'"@
}

/// Whether `tags` holds `tag` verbatim.
pub open spec fn workflow_has_tag(w: Workflow, tag: Seq<char>) -> bool {
    exists|i: int| 0 <= i < w.tags@.len() && w.tags@[i]@ == tag
}

/// Whether a workflow matches a search query, ignoring ASCII case.
pub open spec fn workflow_matches(id: String, w: Workflow, q: Seq<char>) -> bool {
    contains_seq(lower_seq(id@), lower_seq(q)) || contains_seq(lower_seq(w.name@), lower_seq(q))
        || contains_seq(lower_seq(w.description@), lower_seq(q)) || exists|i: int|
        0 <= i < w.tags@.len() && contains_seq(lower_seq(w.tags@[i]@), lower_seq(q))
}

/// Whether `favorites` holds `id` verbatim.
pub open spec fn provides_fav(favorites: Seq<String>, id: Seq<char>) -> bool {
    exists|i: int| 0 <= i < favorites.len() && favorites[i]@ == id
}

proof fn lemma_id_index(ws: Seq<(String, Workflow)>, id: Seq<char>, i: int)
    requires
        0 <= i <= ws.len(),
        forall|k: int| 0 <= k < i ==> (#[trigger] ws[k]).0@ != id,
        i < ws.len() ==> ws[i].0@ == id,
    ensures
        i < ws.len() ==> id_index(ws, id) == i,
        i == ws.len() ==> id_index(ws, id) == -1,
    decreases i + 1, ws.len(),
{
    if ws.len() == 0 {
    } else if i == 0 {
        if ws[0].0@ != id {
            lemma_id_index(ws.drop_first(), id, 0);
        }
    } else {
        lemma_id_index(ws.drop_first(), id, i - 1);
    }
}

proof fn lemma_first_missing(wargs: Seq<WorkflowArgument>, args: Seq<(String, String)>, i: int)
    requires
        0 <= i <= wargs.len(),
        forall|j: int|
            0 <= j < i ==> !((#[trigger] wargs[j]).required && !provides(args, wargs[j].name@)
                && wargs[j].default_value is None),
        i < wargs.len() ==> (wargs[i].required && !provides(args, wargs[i].name@)
            && wargs[i].default_value is None),
    ensures
        i < wargs.len() ==> first_missing(wargs, args) == i,
        i == wargs.len() ==> first_missing(wargs, args) == -1,
    decreases i + 1, wargs.len(),
{
    if wargs.len() == 0 {
    } else if i == 0 {
        if !(wargs[0].required && !provides(args, wargs[0].name@) && wargs[0].default_value
            is None) {
            lemma_first_missing(wargs.drop_first(), args, 0);
        }
    } else {
        lemma_first_missing(wargs.drop_first(), args, i - 1);
    }
}

/// Finds the first entry under `id`.
fn find_id(ws: &Vec<(String, Workflow)>, id: &str) -> (r: Option<usize>)
    ensures
        match r {
            Some(i) => id_index(ws@, id@) == i as int && i < ws@.len(),
            None => id_index(ws@, id@) == -1,
        },
{
    let mut i: usize = 0;
    while i < ws.len()
        invariant
            0 <= i <= ws@.len(),
            forall|k: int| 0 <= k < i ==> (#[trigger] ws@[k]).0@ != id@,
        decreases ws@.len() - i,
    {
        if str_eq(ws[i].0.as_str(), id) {
            proof {
                lemma_id_index(ws@, id@, i as int);
            }
            return Some(i);
        }
        i = i + 1;
    }
    proof {
        lemma_id_index(ws@, id@, ws@.len() as int);
    }
    None
}

/// Whether `favorites` holds `id`.
fn fav_contains(favorites: &Vec<String>, id: &str) -> (r: bool)
    ensures
        r == provides_fav(favorites@, id@),
{
    let mut i: usize = 0;
    while i < favorites.len()
        invariant
            0 <= i <= favorites@.len(),
            forall|k: int| 0 <= k < i ==> (#[trigger] favorites@[k])@ != id@,
        decreases favorites@.len() - i,
    {
        if str_eq(favorites[i].as_str(), id) {
            return true;
        }
        i = i + 1;
    }
    false
}

/// Whether any of `tags` contains `q`, ignoring ASCII case.
fn any_tag_contains_ci(tags: &Vec<String>, q: &str) -> (r: bool)
    ensures
        r == exists|i: int|
            0 <= i < tags@.len() && contains_seq(lower_seq(tags@[i]@), lower_seq(q@)),
{
    let mut i: usize = 0;
    while i < tags.len()
        invariant
            0 <= i <= tags@.len(),
            forall|k: int|
                0 <= k < i ==> !contains_seq(lower_seq((#[trigger] tags@[k])@), lower_seq(q@)),
        decreases tags@.len() - i,
    {
        if contains_ci(tags[i].as_str(), q) {
            return true;
        }
        i = i + 1;
    }
    false
}

/// Whether `tags` holds `tag` verbatim.
fn tag_list_contains(tags: &Vec<String>, tag: &str) -> (r: bool)
    ensures
        r == exists|i: int| 0 <= i < tags@.len() && tags@[i]@ == tag@,
{
    let mut i: usize = 0;
    while i < tags.len()
        invariant
            0 <= i <= tags@.len(),
            forall|k: int| 0 <= k < i ==> (#[trigger] tags@[k])@ != tag@,
        decreases tags@.len() - i,
    {
        if str_eq(tags[i].as_str(), tag) {
            return true;
        }
        i = i + 1;
    }
    false
}

/// Whether `w` carries `tag`, as an exec check feeding the grouping.
fn workflow_tag_holds(w: &Workflow, tag: &str) -> (r: bool)
    ensures
        r == workflow_has_tag(*w, tag@),
{
    tag_list_contains(&w.tags, tag)
}

} // verus!

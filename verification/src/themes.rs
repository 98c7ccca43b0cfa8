//! Theme management.
//!
//! Theme files are read and parsed by the surrounding application, which
//! hands the plain theme values over; keeping them, looking them up by
//! name, searching and categorising are verified here.  The collection
//! keeps at most one theme per name: loading a theme under an existing
//! name replaces it.

use vstd::prelude::*;
use crate::text::{contains_ci, contains_seq, lower_seq, str_eq, views_of};

verus! {

/// The named terminal colours of a theme, as name-colour pairs.
#[derive(Clone, Debug)]
pub struct TerminalColors {
    pub normal: Vec<(String, String)>,
    pub bright: Vec<(String, String)>,
}

/// One theme.
#[derive(Clone, Debug)]
pub struct Theme {
    pub name: String,
    pub accent: String,
    pub background: String,
    pub details: String,
    pub foreground: String,
    pub terminal_colors: TerminalColors,
    pub author: Option<String>,
    pub description: Option<String>,
    pub tags: Vec<String>,
}

/// The first position of a theme called `name`, or `-1`.
pub open spec fn name_index(ts: Seq<Theme>, name: Seq<char>) -> int
    decreases ts.len(),
{
    if ts.len() == 0 {
        -1
    } else if ts[0].name@ == name {
        0
    } else {
        let r = name_index(ts.drop_first(), name);
        if r < 0 {
            -1
        } else {
            1 + r
        }
    }
}

/// `ts` with `t` installed: replacing the theme of the same name when
/// there is one, appended otherwise.
pub open spec fn install_theme(ts: Seq<Theme>, t: Theme) -> Seq<Theme> {
    let i = name_index(ts, t.name@);
    if i >= 0 {
        ts.update(i, t)
    } else {
        ts.push(t)
    }
}

/// `ts` after installing each theme of `loaded`, oldest first.
pub open spec fn install_all(ts: Seq<Theme>, loaded: Seq<Theme>) -> Seq<Theme>
    decreases loaded.len(),
{
    if loaded.len() == 0 {
        ts
    } else {
        install_all(install_theme(ts, loaded[0]), loaded.drop_first())
    }
}

/// Whether `t` carries `tag` verbatim.
pub open spec fn has_tag(t: Theme, tag: Seq<char>) -> bool {
    exists|i: int| 0 <= i < t.tags@.len() && t.tags@[i]@ == tag
}

/// Whether `t` matches a search: the query occurs, ignoring ASCII case,
/// in its name, its description or one of its tags.
pub open spec fn matches_query(t: Theme, q: Seq<char>) -> bool {
    contains_seq(lower_seq(t.name@), lower_seq(q)) || (t.description matches Some(d)
        && contains_seq(lower_seq(d@), lower_seq(q))) || exists|i: int|
        0 <= i < t.tags@.len() && contains_seq(lower_seq(t.tags@[i]@), lower_seq(q))
}

proof fn lemma_name_index(ts: Seq<Theme>, name: Seq<char>, i: int)
    requires
        0 <= i <= ts.len(),
        forall|k: int| 0 <= k < i ==> (#[trigger] ts[k]).name@ != name,
        i < ts.len() ==> ts[i].name@ == name,
    ensures
        i < ts.len() ==> name_index(ts, name) == i,
        i == ts.len() ==> name_index(ts, name) == -1,
    decreases i + 1, ts.len(),
{
    if ts.len() == 0 {
    } else if i == 0 {
        if ts[0].name@ != name {
            lemma_name_index(ts.drop_first(), name, 0);
        }
    } else {
        lemma_name_index(ts.drop_first(), name, i - 1);
    }
}

/// Finds the first theme called `name`.
fn find_name(ts: &Vec<Theme>, name: &str) -> (r: Option<usize>)
    ensures
        match r {
            Some(i) => name_index(ts@, name@) == i as int && i < ts@.len(),
            None => name_index(ts@, name@) == -1,
        },
{
    let mut i: usize = 0;
    while i < ts.len()
        invariant
            0 <= i <= ts@.len(),
            forall|k: int| 0 <= k < i ==> (#[trigger] ts@[k]).name@ != name@,
        decreases ts@.len() - i,
    {
        if str_eq(ts[i].name.as_str(), name) {
            proof {
                lemma_name_index(ts@, name@, i as int);
            }
            return Some(i);
        }
        i = i + 1;
    }
    proof {
        lemma_name_index(ts@, name@, ts@.len() as int);
    }
    None
}

/// Whether `tags` holds `tag` verbatim.
fn tags_contain(tags: &Vec<String>, tag: &str) -> (r: bool)
    ensures
        r == exists|i: int| 0 <= i < tags@.len() && tags@[i]@ == tag@,
{
    let mut i: usize = 0;
    while i < tags.len()
        invariant
            0 <= i <= tags@.len(),
            forall|k: int| 0 <= k < i ==> (#[trigger] tags@[k])@ != tag@,
        decreases tags@.len() - i,
    {
        if str_eq(tags[i].as_str(), tag) {
            return true;
        }
        i = i + 1;
    }
    false
}

/// Whether any of `tags` contains `q`, ignoring ASCII case.
fn tags_contain_ci(tags: &Vec<String>, q: &str) -> (r: bool)
    ensures
        r == exists|i: int|
            0 <= i < tags@.len() && contains_seq(lower_seq(tags@[i]@), lower_seq(q@)),
{
    let mut i: usize = 0;
    while i < tags.len()
        invariant
            0 <= i <= tags@.len(),
            forall|k: int|
                0 <= k < i ==> !contains_seq(lower_seq((#[trigger] tags@[k])@), lower_seq(q@)),
        decreases tags@.len() - i,
    {
        if contains_ci(tags[i].as_str(), q) {
            return true;
        }
        i = i + 1;
    }
    false
}

/// Keeps the loaded themes and the directories they come from.
#[derive(Debug)]
pub struct ThemeManager {
    pub themes: Vec<Theme>,
    pub theme_directories: Vec<String>,
    pub current_theme: Option<String>,
}

impl ThemeManager {
    /// A manager with no themes, the two built-in directories and no
    /// current theme.
    pub fn new() -> (r: Self)
        ensures
            r.themes@.len() == 0,
            views_of(r.theme_directories@) == seq!["themes"@, "~/.agentic/themes"@],
            r.current_theme is None,
    {
        let mut dirs: Vec<String> = Vec::new();
        dirs.push(String::from_str("themes"));
        dirs.push(String::from_str("~/.agentic/themes"));
        proof {
            assert(views_of(dirs@) =~= seq!["themes"@, "~/.agentic/themes"@]);
        }
        ThemeManager { themes: Vec::new(), theme_directories: dirs, current_theme: None }
    }

    /// Remember one more directory to load themes from.
    pub fn add_theme_directory(&mut self, path: &str)
        ensures
            final(self).theme_directories@.len() == old(self).theme_directories@.len() + 1,
            views_of(final(self).theme_directories@) == views_of(
                old(self).theme_directories@,
            ).push(path@),
            final(self).themes == old(self).themes,
            final(self).current_theme == old(self).current_theme,
    {
        self.theme_directories.push(String::from_str(path));
        proof {
            assert(views_of(self.theme_directories@) =~= views_of(
                old(self).theme_directories@,
            ).push(path@));
        }
    }

    /// Install one parsed theme, replacing any theme of the same name.
    pub fn add_theme(&mut self, theme: Theme)
        ensures
            final(self).themes@ == install_theme(old(self).themes@, theme),
            final(self).theme_directories == old(self).theme_directories,
            final(self).current_theme == old(self).current_theme,
    {
        match find_name(&self.themes, theme.name.as_str()) {
            Some(i) => {
                self.themes.set(i, theme);
            },
            None => {
                self.themes.push(theme);
            },
        }
    }

    /// Take in the themes parsed from the managed directories, in the
    /// order they were found; a later theme replaces an earlier one of
    /// the same name.
    pub fn load_themes(&mut self, loaded: Vec<Theme>)
        ensures
            final(self).themes@ == install_all(old(self).themes@, loaded@),
            final(self).theme_directories == old(self).theme_directories,
            final(self).current_theme == old(self).current_theme,
    {
        let ghost all = loaded@;
        let mut rest = loaded;
        while rest.len() > 0
            invariant
                install_all(old(self).themes@, all) == install_all(self.themes@, rest@),
                self.theme_directories == old(self).theme_directories,
                self.current_theme == old(self).current_theme,
            decreases rest@.len(),
        {
            let ghost before = rest@;
            let theme = rest.remove(0);
            proof {
                assert(rest@ =~= before.drop_first());
            }
            self.add_theme(theme);
        }
    }

    /// Drop every theme and take in the freshly parsed ones.
    pub fn reload_themes(&mut self, loaded: Vec<Theme>)
        ensures
            final(self).themes@ == install_all(Seq::<Theme>::empty(), loaded@),
            final(self).theme_directories == old(self).theme_directories,
            final(self).current_theme == old(self).current_theme,
    {
        self.themes.clear();
        self.load_themes(loaded);
    }

    /// The theme called `name`, if one is loaded.
    pub fn get_theme(&self, name: &str) -> (r: Option<&Theme>)
        ensures
            match r {
                Some(t) => name_index(self.themes@, name@) >= 0 && *t == self.themes@[name_index(
                    self.themes@,
                    name@,
                )],
                None => name_index(self.themes@, name@) == -1,
            },
    {
        match find_name(&self.themes, name) {
            Some(i) => Some(&self.themes[i]),
            None => None,
        }
    }

    /// Every loaded theme, in load order.
    pub fn list_themes(&self) -> (r: Vec<&Theme>)
        ensures
            r@.len() == self.themes@.len(),
            forall|i: int| 0 <= i < r@.len() ==> *(#[trigger] r@[i]) == self.themes@[i],
    {
        let mut out: Vec<&Theme> = Vec::new();
        let mut i: usize = 0;
        while i < self.themes.len()
            invariant
                0 <= i <= self.themes@.len(),
                out@.len() == i,
                forall|k: int| 0 <= k < i ==> *(#[trigger] out@[k]) == self.themes@[k],
            decreases self.themes@.len() - i,
        {
            out.push(&self.themes[i]);
            i = i + 1;
        }
        out
    }

    /// The loaded themes carrying `tag`, exactly and in load order.
    pub fn list_themes_by_tag(&self, tag: &str) -> (r: Vec<&Theme>)
        ensures
            r@.len() == self.themes@.filter(|t: Theme| has_tag(t, tag@)).len(),
            forall|i: int|
                0 <= i < r@.len() ==> *(#[trigger] r@[i]) == self.themes@.filter(
                    |t: Theme| has_tag(t, tag@),
                )[i],
    {
        let ghost vs = self.themes@;
        let ghost pred = |t: Theme| has_tag(t, tag@);
        let mut out: Vec<&Theme> = Vec::new();
        let mut i: usize = 0;
        proof {
            reveal(Seq::filter);
            assert(vs.take(0) =~= Seq::<Theme>::empty());
        }
        while i < self.themes.len()
            invariant
                vs == self.themes@,
                pred == (|t: Theme| has_tag(t, tag@)),
                0 <= i <= vs.len(),
                out@.len() == vs.take(i as int).filter(pred).len(),
                forall|k: int|
                    0 <= k < out@.len() ==> *(#[trigger] out@[k]) == vs.take(
                        i as int,
                    ).filter(pred)[k],
            decreases vs.len() - i,
        {
            proof {
                assert(vs.take(i + 1) =~= vs.take(i as int).push(vs[i as int]));
                vs.take(i as int).lemma_filter_push(vs[i as int], pred);
            }
            if tags_contain(&self.themes[i].tags, tag) {
                out.push(&self.themes[i]);
            }
            i = i + 1;
        }
        proof {
            assert(vs.take(vs.len() as int) =~= vs);
        }
        out
    }

    /// Make `name` current; an unknown name is refused and changes
    /// nothing.
    pub fn set_current_theme(&mut self, name: &str) -> (r: Result<(), String>)
        ensures
            final(self).themes == old(self).themes,
            final(self).theme_directories == old(self).theme_directories,
            match r {
                Ok(_) => name_index(old(self).themes@, name@) >= 0
                    && (final(self).current_theme matches Some(c) && c@ == name@),
                Err(m) => name_index(old(self).themes@, name@) == -1 && final(self).current_theme
                    == old(self).current_theme && m@ == "Theme '"@ + name@ + "' not found"@,
            },
    {
        match find_name(&self.themes, name) {
            Some(_) => {
                self.current_theme = Some(String::from_str(name));
                Ok(())
            },
            None => {
                let mut m = String::from_str("Theme '");
                m.append(name);
                m.append("' not found");
                Err(m)
            },
        }
    }

    /// The current theme, if one is set and still loaded.
    pub fn get_current_theme(&self) -> (r: Option<&Theme>)
        ensures
            match r {
                Some(t) => self.current_theme matches Some(c) && name_index(self.themes@, c@)
                    >= 0 && *t == self.themes@[name_index(self.themes@, c@)],
                None => self.current_theme is None || (self.current_theme matches Some(c)
                    && name_index(self.themes@, c@) == -1),
            },
    {
        match &self.current_theme {
            Some(c) => {
                match find_name(&self.themes, c.as_str()) {
                    Some(i) => Some(&self.themes[i]),
                    None => None,
                }
            },
            None => None,
        }
    }

    /// The loaded themes matching `query` in name, description or tags,
    /// ignoring ASCII case, exactly and in load order.
    pub fn search_themes(&self, query: &str) -> (r: Vec<&Theme>)
        ensures
            r@.len() == self.themes@.filter(|t: Theme| matches_query(t, query@)).len(),
            forall|i: int|
                0 <= i < r@.len() ==> *(#[trigger] r@[i]) == self.themes@.filter(
                    |t: Theme| matches_query(t, query@),
                )[i],
    {
        let ghost vs = self.themes@;
        let ghost pred = |t: Theme| matches_query(t, query@);
        let mut out: Vec<&Theme> = Vec::new();
        let mut i: usize = 0;
        proof {
            reveal(Seq::filter);
            assert(vs.take(0) =~= Seq::<Theme>::empty());
        }
        while i < self.themes.len()
            invariant
                vs == self.themes@,
                pred == (|t: Theme| matches_query(t, query@)),
                0 <= i <= vs.len(),
                out@.len() == vs.take(i as int).filter(pred).len(),
                forall|k: int|
                    0 <= k < out@.len() ==> *(#[trigger] out@[k]) == vs.take(
                        i as int,
                    ).filter(pred)[k],
            decreases vs.len() - i,
        {
            proof {
                assert(vs.take(i + 1) =~= vs.take(i as int).push(vs[i as int]));
                vs.take(i as int).lemma_filter_push(vs[i as int], pred);
            }
            let t = &self.themes[i];
            let mut hit = contains_ci(t.name.as_str(), query);
            if !hit {
                if let Some(d) = &t.description {
                    hit = contains_ci(d.as_str(), query);
                }
            }
            if !hit {
                hit = tags_contain_ci(&t.tags, query);
            }
            if hit {
                out.push(t);
            }
            i = i + 1;
        }
        proof {
            assert(vs.take(vs.len() as int) =~= vs);
        }
        out
    }

    /// The loaded themes grouped under the four fixed category labels;
    /// a category with no themes is left out.
    pub fn get_theme_categories(&self) -> (r: Vec<(String, Vec<&Theme>)>)
        ensures
            forall|c: int|
                0 <= c < r@.len() ==> forall|i: int|
                    0 <= i < (#[trigger] r@[c]).1@.len() ==> has_tag(
                        *(#[trigger] r@[c].1@[i]),
                        lower_seq(r@[c].0@),
                    ),
    {
        let mut out: Vec<(String, Vec<&Theme>)> = Vec::new();
        let dark = self.list_themes_by_tag("dark");
        proof {
            reveal_strlit("dark");
            reveal_strlit("Dark");
            assert(lower_seq("Dark"@) =~= "dark"@);
        }
        if dark.len() > 0 {
            out.push((String::from_str("Dark"), dark));
        }
        let light = self.list_themes_by_tag("light");
        proof {
            reveal_strlit("light");
            reveal_strlit("Light");
            assert(lower_seq("Light"@) =~= "light"@);
        }
        if light.len() > 0 {
            out.push((String::from_str("Light"), light));
        }
        let popular = self.list_themes_by_tag("popular");
        proof {
            reveal_strlit("popular");
            reveal_strlit("Popular");
            assert(lower_seq("Popular"@) =~= "popular"@);
        }
        if popular.len() > 0 {
            out.push((String::from_str("Popular"), popular));
        }
        let minimal = self.list_themes_by_tag("minimal");
        proof {
            reveal_strlit("minimal");
            reveal_strlit("Minimal");
            assert(lower_seq("Minimal"@) =~= "minimal"@);
        }
        if minimal.len() > 0 {
            out.push((String::from_str("Minimal"), minimal));
        }
        out
    }
}

} // verus!

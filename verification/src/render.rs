//! Flat variable substitution for parametrized template files.
//!
//! A template body may reference variables as `{{ name }}`.  Rendering
//! replaces each reference by the variable's value from the
//! [`RenderContext`]; a reference to an unknown variable or a malformed
//! placeholder aborts rendering.  There are no conditionals and no
//! loops: this is not a templating language, only substitution.

use vstd::map::*;
use vstd::prelude::*;

use crate::text::{spec_kebab, spec_snake, to_kebab_case, to_snake_case};

verus! {

/// The variables available to a template, always the three project-name
/// derivations plus the caller-identity variable.
#[derive(Debug, Clone, PartialEq)]
pub struct RenderContext {
    pub project_name: String,
    pub project_name_kebab: String,
    pub project_name_snake: String,
    pub tauri_user_name: String,
}

impl RenderContext {
    /// The mapping from variable name to value that rendering consults.
    pub open spec fn spec_vars(self) -> Map<Seq<char>, Seq<char>> {
        map![
            "project_name"@ => self.project_name@,
            "project_name_kebab"@ => self.project_name_kebab@,
            "project_name_snake"@ => self.project_name_snake@,
            "tauri_user_name"@ => self.tauri_user_name@,
        ]
    }

    /// Build the context for a project: the name is passed through
    /// verbatim, the kebab and snake forms are derived from it, and the
    /// caller identity defaults to a fixed literal when none is given.
    pub fn new(project_name: &str, user_name: Option<String>) -> (r: RenderContext)
        ensures
            r.project_name@ == project_name@,
            r.project_name_kebab@ == spec_kebab(project_name@),
            r.project_name_snake@ == spec_snake(project_name@),
            match user_name {
                Some(u) => r.tauri_user_name@ == u@,
                None => r.tauri_user_name@ == "tauri"@,
            },
    {
        let tauri_user_name = match user_name {
            Some(u) => u,
            None => "tauri".to_owned(),
        };
        RenderContext {
            project_name: project_name.to_owned(),
            project_name_kebab: to_kebab_case(project_name),
            project_name_snake: to_snake_case(project_name),
            tauri_user_name,
        }
    }

    /// The value of a variable, if the context defines it.
    pub fn get_var<'a>(&'a self, name: &String) -> (r: Option<&'a String>)
        ensures
            match r {
                Some(v) => self.spec_vars().contains_key(name@) && v@ == self.spec_vars()[name@],
                None => !self.spec_vars().contains_key(name@),
            },
    {
        proof {
            lemma_var_keys_distinct();
        }
        if *name == "project_name".to_owned() {
            Some(&self.project_name)
        } else if *name == "project_name_kebab".to_owned() {
            Some(&self.project_name_kebab)
        } else if *name == "project_name_snake".to_owned() {
            Some(&self.project_name_snake)
        } else if *name == "tauri_user_name".to_owned() {
            Some(&self.tauri_user_name)
        } else {
            None
        }
    }
}

/// The four variable names are pairwise distinct.
proof fn lemma_var_keys_distinct()
    ensures
        "project_name"@ != "project_name_kebab"@,
        "project_name"@ != "project_name_snake"@,
        "project_name"@ != "tauri_user_name"@,
        "project_name_kebab"@ != "project_name_snake"@,
        "project_name_kebab"@ != "tauri_user_name"@,
        "project_name_snake"@ != "tauri_user_name"@,
{
    reveal_strlit("project_name");
    reveal_strlit("project_name_kebab");
    reveal_strlit("project_name_snake");
    reveal_strlit("tauri_user_name");
    assert("project_name"@.len() == 12);
    assert("project_name_kebab"@.len() == 18);
    assert("project_name_snake"@.len() == 18);
    assert("tauri_user_name"@.len() == 15);
    assert("project_name_kebab"@[13] == 'k');
    assert("project_name_snake"@[13] == 's');
}

/// A rendering failure.
#[derive(Debug, Clone, PartialEq)]
pub enum RenderError {
    /// A placeholder references a variable the context does not define.
    UndefinedVariable { name: String },
    /// An opening `{{` is not followed by a variable name and a closing
    /// `}}`.
    MalformedPlaceholder,
    /// The file is marked parametrized but its bytes are not UTF-8.
    InvalidUtf8,
}

/// A character a variable name may consist of.
pub open spec fn is_ident_char(c: char) -> bool {
    ('a' <= c && c <= 'z') || ('A' <= c && c <= 'Z') || ('0' <= c && c <= '9') || c == '_'
}

/// The first position at or after `i` that does not hold a space.
pub open spec fn spec_skip_spaces(s: Seq<char>, i: int) -> int
    decreases s.len() - i,
    when 0 <= i <= s.len()
{
    if i >= s.len() {
        i
    } else if s[i] == ' ' {
        spec_skip_spaces(s, i + 1)
    } else {
        i
    }
}

/// Skipping spaces stays within the string and never moves backwards.
pub proof fn lemma_skip_spaces_bounds(s: Seq<char>, i: int)
    requires
        0 <= i <= s.len(),
    ensures
        i <= spec_skip_spaces(s, i) <= s.len(),
    decreases s.len() - i,
{
    if i < s.len() && s[i] == ' ' {
        lemma_skip_spaces_bounds(s, i + 1);
    }
}

/// The first position at or after `i` that does not hold an identifier
/// character.
pub open spec fn spec_ident_end(s: Seq<char>, i: int) -> int
    decreases s.len() - i,
    when 0 <= i <= s.len()
{
    if i >= s.len() {
        i
    } else if is_ident_char(s[i]) {
        spec_ident_end(s, i + 1)
    } else {
        i
    }
}

/// Scanning an identifier stays within the string and never moves
/// backwards.
pub proof fn lemma_ident_end_bounds(s: Seq<char>, i: int)
    requires
        0 <= i <= s.len(),
    ensures
        i <= spec_ident_end(s, i) <= s.len(),
    decreases s.len() - i,
{
    if i < s.len() && is_ident_char(s[i]) {
        lemma_ident_end_bounds(s, i + 1);
    }
}

/// The shape of a placeholder whose `{{` ended just before position
/// `i`: optional spaces, a non-empty variable name, optional spaces and
/// `}}`.  The result gives the name's span and the position right after
/// the closing braces; `None` means the placeholder is malformed.
pub open spec fn spec_placeholder(s: Seq<char>, i: int) -> Option<(int, int, int)> {
    let a = spec_skip_spaces(s, i);
    let b = spec_ident_end(s, a);
    if b == a {
        None
    } else {
        let c = spec_skip_spaces(s, b);
        if c + 2 <= s.len() && s[c] == '}' && s[c + 1] == '}' {
            Some((a, b, c + 2))
        } else {
            None
        }
    }
}

/// What rendering the tail of `s` from position `i` yields: the
/// rendered text, or `Err(Some(span))` for a reference to an undefined
/// variable whose name is `s[span]`, or `Err(None)` for a malformed
/// placeholder.
pub open spec fn spec_render_from(s: Seq<char>, i: int, vars: Map<Seq<char>, Seq<char>>) -> Result<
    Seq<char>,
    Option<(int, int)>,
>
    decreases s.len() - i,
    when 0 <= i <= s.len()
{
    if i >= s.len() {
        Ok(Seq::empty())
    } else if i + 2 <= s.len() && s[i] == '{' && s[i + 1] == '{' {
        match spec_placeholder(s, i + 2) {
            None => Err(None),
            Some((a, b, j)) => {
                proof {
                    lemma_skip_spaces_bounds(s, i + 2);
                    lemma_ident_end_bounds(s, spec_skip_spaces(s, i + 2));
                    lemma_skip_spaces_bounds(s, spec_ident_end(s, spec_skip_spaces(s, i + 2)));
                }
                let name = s.subrange(a, b);
                if !vars.contains_key(name) {
                    Err(Some((a, b)))
                } else {
                    match spec_render_from(s, j, vars) {
                        Ok(rest) => Ok(vars[name] + rest),
                        Err(e) => Err(e),
                    }
                }
            },
        }
    } else {
        match spec_render_from(s, i + 1, vars) {
            Ok(rest) => Ok(seq![s[i]] + rest),
            Err(e) => Err(e),
        }
    }
}

/// What rendering a whole template yields.
pub open spec fn spec_render(s: Seq<char>, vars: Map<Seq<char>, Seq<char>>) -> Result<
    Seq<char>,
    Option<(int, int)>,
> {
    spec_render_from(s, 0, vars)
}

/// Whether a character may start or continue a variable name.
fn ident_char(c: char) -> (r: bool)
    ensures
        r == is_ident_char(c),
{
    let u = c as u32;
    (97 <= u && u <= 122) || (65 <= u && u <= 90) || (48 <= u && u <= 57) || u == 95
}

/// The first position at or after `from` that does not hold a space.
fn skip_spaces(s: &str, from: usize) -> (r: usize)
    requires
        from <= s@.len(),
    ensures
        r == spec_skip_spaces(s@, from as int),
        from <= r <= s@.len(),
{
    let n = s.unicode_len();
    let mut j = from;
    while j < n && s.get_char(j) == ' '
        invariant
            n == s@.len(),
            from <= j <= n,
            spec_skip_spaces(s@, from as int) == spec_skip_spaces(s@, j as int),
        decreases n - j,
    {
        j = j + 1;
    }
    j
}

/// The first position at or after `from` that does not hold an
/// identifier character.
fn ident_end(s: &str, from: usize) -> (r: usize)
    requires
        from <= s@.len(),
    ensures
        r == spec_ident_end(s@, from as int),
        from <= r <= s@.len(),
{
    let n = s.unicode_len();
    let mut j = from;
    while j < n && ident_char(s.get_char(j))
        invariant
            n == s@.len(),
            from <= j <= n,
            spec_ident_end(s@, from as int) == spec_ident_end(s@, j as int),
        decreases n - j,
    {
        j = j + 1;
    }
    j
}

/// Render a template against a context: every well-formed reference to
/// a defined variable is replaced by the variable's value, any other
/// use of `{{` aborts rendering.
pub fn render_str(s: &str, ctx: &RenderContext) -> (r: Result<String, RenderError>)
    ensures
        match r {
            Ok(out) => spec_render(s@, ctx.spec_vars()) == Ok::<Seq<char>, Option<(int, int)>>(
                out@,
            ),
            Err(e) => match e {
                RenderError::UndefinedVariable { name } => spec_render(s@, ctx.spec_vars())
                    matches Err(Some(sp)) && name@ == s@.subrange(sp.0, sp.1),
                RenderError::MalformedPlaceholder => spec_render(s@, ctx.spec_vars())
                    == Err::<Seq<char>, Option<(int, int)>>(None),
                RenderError::InvalidUtf8 => false,
            },
        },
{
    let ghost vars = ctx.spec_vars();
    let n = s.unicode_len();
    let mut out = String::new();
    let mut i: usize = 0;
    proof {
        match spec_render_from(s@, 0, vars) {
            Ok(t) => {
                assert(Seq::<char>::empty() + t =~= t);
            },
            Err(_) => {},
        }
    }
    while i < n
        invariant
            n == s@.len(),
            0 <= i <= n,
            vars == ctx.spec_vars(),
            (spec_render_from(s@, i as int, vars) matches Ok(t) ==> spec_render(s@, vars) == Ok::<
                Seq<char>,
                Option<(int, int)>,
            >(out@ + t)),
            (spec_render_from(s@, i as int, vars) matches Err(e) ==> spec_render(s@, vars)
                == Err::<Seq<char>, Option<(int, int)>>(e)),
        decreases n - i,
    {
        if s.get_char(i) == '{' && i + 1 < n && s.get_char(i + 1) == '{' {
            let a = skip_spaces(s, i + 2);
            let b = ident_end(s, a);
            let placeholder_ok: bool;
            let mut close: usize = 0;
            if b == a {
                placeholder_ok = false;
            } else {
                let c = skip_spaces(s, b);
                if c < n && s.get_char(c) == '}' && c + 1 < n && s.get_char(c + 1) == '}' {
                    placeholder_ok = true;
                    close = c + 2;
                } else {
                    placeholder_ok = false;
                }
            }
            if !placeholder_ok {
                proof {
                    assert(spec_placeholder(s@, i as int + 2) is None);
                    assert(spec_render_from(s@, i as int, vars) == Err::<
                        Seq<char>,
                        Option<(int, int)>,
                    >(None));
                }
                return Err(RenderError::MalformedPlaceholder);
            }
            let name = s.substring_char(a, b).to_owned();
            proof {
                assert(spec_placeholder(s@, i as int + 2) == Some(
                    (a as int, b as int, close as int),
                ));
                assert(name@ == s@.subrange(a as int, b as int));
            }
            match ctx.get_var(&name) {
                None => {
                    proof {
                        assert(spec_render_from(s@, i as int, vars) == Err::<
                            Seq<char>,
                            Option<(int, int)>,
                        >(Some((a as int, b as int))));
                    }
                    return Err(RenderError::UndefinedVariable { name });
                },
                Some(v) => {
                    let ghost prev = out@;
                    out.append(v.as_str());
                    proof {
                        assert(spec_render_from(s@, i as int, vars) == (
                        match spec_render_from(s@, close as int, vars) {
                            Ok(rest) => Ok::<Seq<char>, Option<(int, int)>>(
                                vars[name@] + rest,
                            ),
                            Err(e) => Err::<Seq<char>, Option<(int, int)>>(e),
                        }));
                        match spec_render_from(s@, close as int, vars) {
                            Ok(t) => {
                                assert(prev + (vars[name@] + t) =~= out@ + t);
                            },
                            Err(_) => {},
                        }
                    }
                    i = close;
                },
            }
        } else {
            let c = s.get_char(i);
            let ghost prev = out@;
            crate::text::push_char(&mut out, c);
            proof {
                assert(spec_render_from(s@, i as int, vars) == (
                match spec_render_from(s@, i as int + 1, vars) {
                    Ok(rest) => Ok::<Seq<char>, Option<(int, int)>>(seq![s@[i as int]] + rest),
                    Err(e) => Err::<Seq<char>, Option<(int, int)>>(e),
                }));
                match spec_render_from(s@, i as int + 1, vars) {
                    Ok(t) => {
                        assert(prev + (seq![s@[i as int]] + t) =~= out@ + t);
                    },
                    Err(_) => {},
                }
            }
            i = i + 1;
        }
    }
    proof {
        assert(spec_render_from(s@, n as int, vars) == Ok::<Seq<char>, Option<(int, int)>>(
            Seq::empty(),
        ));
        assert(out@ + Seq::<char>::empty() =~= out@);
    }
    Ok(out)
}

} // verus!

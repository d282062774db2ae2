//! The shape editor's own state: identifiers for shapes and shaders, the
//! selected tab, the shader templates, and the unique import paths it gives
//! to the shaders it compiles.
use vstd::prelude::*;

use crate::text::{chars_of, contains_in, contains_seq, lines_scan, strip_cr, text_lines};

verus! {

/// The tab shown in the editor's side panel.
#[derive(Clone, Copy, Debug, PartialEq, Eq, Structural)]
pub enum SelectedTab {
    /// Global settings.
    Global,
    /// The settings of the shape with this identifier.
    Shape(u32),
}

/// Counters and selection of the editor.
#[derive(Clone, Copy, Debug, PartialEq, Eq, Structural)]
pub struct EditorState {
    /// The identifier the next compiled shader gets.
    pub next_shader_id: u32,
    /// The identifier the next shape gets.
    pub next_shape_id: u32,
    /// The tab shown.
    pub selected_tab: SelectedTab,
    /// The shape the side panel should scroll to, if any.
    pub scroll_to: Option<u32>,
}

impl Default for EditorState {
    /// No shape or shader yet, the global tab shown, nothing to scroll to.
    fn default() -> (state: Self)
        ensures
            state.next_shader_id == 0,
            state.next_shape_id == 0,
            state.selected_tab == SelectedTab::Global,
            state.scroll_to is None,
    {
        EditorState {
            next_shader_id: 0,
            next_shape_id: 0,
            selected_tab: SelectedTab::Global,
            scroll_to: None,
        }
    }
}

impl EditorState {
    /// Takes the next shader identifier.
    pub fn create_shader(&mut self) -> (id: u32)
        requires
            old(self).next_shader_id < u32::MAX,
        ensures
            id == old(self).next_shader_id,
            final(self).next_shader_id == old(self).next_shader_id + 1,
            final(self).next_shape_id == old(self).next_shape_id,
            final(self).selected_tab == old(self).selected_tab,
            final(self).scroll_to == old(self).scroll_to,
    {
        let id = self.next_shader_id;
        self.next_shader_id = self.next_shader_id + 1;
        id
    }

    /// Takes the next shape identifier and shows that shape's tab.
    pub fn create_shape(&mut self) -> (id: u32)
        requires
            old(self).next_shape_id < u32::MAX,
        ensures
            id == old(self).next_shape_id,
            final(self).next_shape_id == old(self).next_shape_id + 1,
            final(self).next_shader_id == old(self).next_shader_id,
            final(self).selected_tab == SelectedTab::Shape(id),
            final(self).scroll_to == Some(id),
    {
        let id = self.next_shape_id;
        self.next_shape_id = self.next_shape_id + 1;
        self.select_tab(SelectedTab::Shape(id));
        id
    }

    /// The shape whose tab is shown, if a shape's tab is shown.
    pub fn selected_shape(&self) -> (id: Option<u32>)
        ensures
            id == match self.selected_tab {
                SelectedTab::Shape(i) => Some(i),
                SelectedTab::Global => None,
            },
    {
        match self.selected_tab {
            SelectedTab::Shape(id) => Some(id),
            SelectedTab::Global => None,
        }
    }

    /// Whether the tab list should scroll to shape `id` now; the request to
    /// scroll is used up when it is.
    pub fn take_scroll_to(&mut self, id: u32) -> (scroll: bool)
        ensures
            scroll == (old(self).scroll_to == Some(id)),
            final(self).scroll_to == (if scroll { None } else { old(self).scroll_to }),
            final(self).selected_tab == old(self).selected_tab,
            final(self).next_shader_id == old(self).next_shader_id,
            final(self).next_shape_id == old(self).next_shape_id,
    {
        if self.scroll_to == Some(id) {
            self.scroll_to = None;
            true
        } else {
            false
        }
    }

    /// Shows a tab; showing a shape's tab also scrolls to that shape.
    pub fn select_tab(&mut self, tab: SelectedTab)
        ensures
            final(self).selected_tab == tab,
            final(self).scroll_to == match tab {
                SelectedTab::Shape(id) => Some(id),
                SelectedTab::Global => old(self).scroll_to,
            },
            final(self).next_shader_id == old(self).next_shader_id,
            final(self).next_shape_id == old(self).next_shape_id,
    {
        self.selected_tab = tab;
        if let SelectedTab::Shape(id) = tab {
            self.scroll_to = Some(id);
        }
    }
}

/// The two kinds of shader a shape is made of.
#[derive(Clone, Copy, Debug, PartialEq, Eq, Structural)]
pub enum ShaderKind {
    /// The signed distance function.
    Sdf,
    /// The fill.
    Fill,
}

impl ShaderKind {
    /// The kind's name as shown in the editor: `sdf` or `fill`.
    pub fn name(&self) -> (s: String)
        ensures
            s@ == match *self {
                ShaderKind::Sdf => "sdf"@,
                ShaderKind::Fill => "fill"@,
            },
    {
        match self {
            ShaderKind::Sdf => String::from_str("sdf"),
            ShaderKind::Fill => String::from_str("fill"),
        }
    }
}

/// A shader template: its name (the file stem) and its code.
pub struct Template {
    /// Name of the template.
    pub name: String,
    /// WGSL code of the template.
    pub code: String,
}

/// The name of the distance template used for new shapes.
pub const DEFAULT_SDF_TEMPLATE: &'static str = "circle";
/// The name of the fill template used for new shapes.
pub const DEFAULT_FILL_TEMPLATE: &'static str = "simple";

/// The position of the first template with the given name.
pub fn position_of_name(templates: &Vec<Template>, name: &str) -> (pos: Option<usize>)
    ensures
        pos matches Some(i) ==> i < templates.len() && templates@[i as int].name@ == name@ && forall|
            j: int,
        | 0 <= j < i ==> #[trigger] templates@[j].name@ != name@,
        pos is None ==> forall|j: int|
            0 <= j < templates.len() ==> #[trigger] templates@[j].name@ != name@,
{
    let target = String::from_str(name);
    let mut i: usize = 0;
    while i < templates.len()
        invariant
            i <= templates.len(),
            target@ == name@,
            forall|j: int| 0 <= j < i ==> #[trigger] templates@[j].name@ != name@,
        decreases templates.len() - i,
    {
        if templates[i].name == target {
            return Some(i);
        }
        i = i + 1;
    }
    None
}

/// The shader templates of the editor, with the defaults for new shapes.
pub struct Templates {
    /// Distance templates.
    pub sdf: Vec<Template>,
    /// Fill templates.
    pub fill: Vec<Template>,
    /// Position of the default distance template, if there is one.
    pub default_sdf: Option<usize>,
    /// Position of the default fill template, if there is one.
    pub default_fill: Option<usize>,
}

impl Templates {
    /// The templates, with the first ones named `circle` (distance) and
    /// `simple` (fill) as defaults.
    pub fn new(sdf: Vec<Template>, fill: Vec<Template>) -> (t: Templates)
        ensures
            t.sdf@ == sdf@,
            t.fill@ == fill@,
            t.default_sdf matches Some(i) ==> i < sdf.len() && sdf@[i as int].name@
                == DEFAULT_SDF_TEMPLATE@ && forall|j: int|
                0 <= j < i ==> #[trigger] sdf@[j].name@ != DEFAULT_SDF_TEMPLATE@,
            t.default_sdf is None ==> forall|j: int|
                0 <= j < sdf.len() ==> #[trigger] sdf@[j].name@ != DEFAULT_SDF_TEMPLATE@,
            t.default_fill matches Some(i) ==> i < fill.len() && fill@[i as int].name@
                == DEFAULT_FILL_TEMPLATE@ && forall|j: int|
                0 <= j < i ==> #[trigger] fill@[j].name@ != DEFAULT_FILL_TEMPLATE@,
            t.default_fill is None ==> forall|j: int|
                0 <= j < fill.len() ==> #[trigger] fill@[j].name@ != DEFAULT_FILL_TEMPLATE@,
    {
        let default_sdf = position_of_name(&sdf, DEFAULT_SDF_TEMPLATE);
        let default_fill = position_of_name(&fill, DEFAULT_FILL_TEMPLATE);
        Templates { sdf, fill, default_sdf, default_fill }
    }

    /// All templates of a kind.
    pub fn all_templates(&self, shader: ShaderKind) -> (all: &Vec<Template>)
        ensures
            all == match shader {
                ShaderKind::Sdf => &self.sdf,
                ShaderKind::Fill => &self.fill,
            },
    {
        match shader {
            ShaderKind::Sdf => &self.sdf,
            ShaderKind::Fill => &self.fill,
        }
    }

    /// The default template of a kind, if there is one.
    pub fn default_template(&self, shader: ShaderKind) -> (t: Option<&Template>)
        ensures
            ({
                let (all, index) = match shader {
                    ShaderKind::Sdf => (self.sdf@, self.default_sdf),
                    ShaderKind::Fill => (self.fill@, self.default_fill),
                };
                match index {
                    Some(i) => if i < all.len() {
                        t == Some(&all[i as int])
                    } else {
                        t is None
                    },
                    None => t is None,
                }
            }),
    {
        let (all, index) = match shader {
            ShaderKind::Sdf => (&self.sdf, self.default_sdf),
            ShaderKind::Fill => (&self.fill, self.default_fill),
        };
        match index {
            Some(i) => if i < all.len() {
                Some(&all[i])
            } else {
                None
            },
            None => None,
        }
    }

    /// The code a new shape starts with for a kind of shader: that of the
    /// default template, or nothing if there is none.
    pub fn default_code(&self, shader: ShaderKind) -> (code: String)
        ensures
            ({
                let (all, index) = match shader {
                    ShaderKind::Sdf => (self.sdf@, self.default_sdf),
                    ShaderKind::Fill => (self.fill@, self.default_fill),
                };
                match index {
                    Some(i) => if i < all.len() {
                        code@ == all[i as int].code@
                    } else {
                        code@ == Seq::<char>::empty()
                    },
                    None => code@ == Seq::<char>::empty(),
                }
            }),
    {
        match self.default_template(shader) {
            Some(t) => t.code.clone(),
            None => String::new(),
        }
    }
}

/// The decimal digits of a number, most significant first.
pub open spec fn decimal_digits(n: nat) -> Seq<char>
    decreases n,
{
    if n < 10 {
        seq![(48 + n) as char]
    } else {
        decimal_digits(n / 10).push((48 + n % 10) as char)
    }
}

/// The decimal form of a number, most significant digit first.
fn decimal_text(n: u32) -> (s: String)
    ensures
        s@ == decimal_digits(n as nat),
    decreases n,
{
    let digits = "0123456789";
    proof {
        reveal_strlit("0123456789");
    }
    let d: usize = (n % 10) as usize;
    let digit = digits.substring_char(d, d + 1);
    assert(digit@ =~= seq![(48 + n % 10) as char]);
    if n < 10 {
        String::from_str(digit)
    } else {
        let mut s = decimal_text(n / 10);
        s.append(digit);
        s
    }
}

/// The directive that gives a WGSL module its import path, with the space
/// before the path.
pub const IMPORT_PATH_DIRECTIVE: &'static str = "#define_import_path ";
/// What marks a line that gives an import path.
pub const IMPORT_PATH_MARKER: &'static str = "#define_import_path";
/// Prefix of the import paths of the editor's shaders.
pub const EDITOR_SHADER_PATH: &'static str = "smud_editor::shader_";

/// The kept lines, each followed by a line feed: all but those that give an
/// import path.
pub open spec fn kept_lines_text(lines: Seq<Seq<char>>) -> Seq<char>
    decreases lines.len(),
{
    if lines.len() == 0 {
        Seq::<char>::empty()
    } else {
        kept_lines_text(lines.drop_last()) + if contains_seq(lines.last(), IMPORT_PATH_MARKER@) {
            Seq::<char>::empty()
        } else {
            lines.last().push('\n')
        }
    }
}

/// The code of a shader made unique: a directive giving it the import path
/// `smud_editor::shader_<id>`, then its lines without their own import-path
/// directives.
pub open spec fn unique_shader_text(id: u32, code: Seq<char>) -> Seq<char> {
    (IMPORT_PATH_DIRECTIVE@ + EDITOR_SHADER_PATH@ + decimal_digits(id as nat)).push('\n')
        + kept_lines_text(text_lines(code))
}

proof fn lemma_kept_lines_push(lines: Seq<Seq<char>>, line: Seq<char>)
    ensures
        kept_lines_text(lines.push(line)) == kept_lines_text(lines) + if contains_seq(
            line,
            IMPORT_PATH_MARKER@,
        ) {
            Seq::<char>::empty()
        } else {
            line.push('\n')
        },
{
    assert(lines.push(line).drop_last() =~= lines);
}

fn append_kept_line(
    out: &mut String,
    code: &str,
    chars: &Vec<char>,
    from: usize,
    to: usize,
    marker: &Vec<char>,
)
    requires
        from <= to <= chars.len(),
        chars@ == code@,
        marker@ == IMPORT_PATH_MARKER@,
    ensures
        final(out)@ == old(out)@ + if contains_seq(
            chars@.subrange(from as int, to as int),
            IMPORT_PATH_MARKER@,
        ) {
            Seq::<char>::empty()
        } else {
            chars@.subrange(from as int, to as int).push('\n')
        },
{
    if !contains_in(chars, from, to, marker) {
        out.append(code.substring_char(from, to));
        proof {
            reveal_strlit("\n");
        }
        out.append("\n");
        assert(final(out)@ =~= old(out)@ + chars@.subrange(from as int, to as int).push('\n'));
    } else {
        assert(out@ =~= old(out)@ + Seq::<char>::empty());
    }
}

/// Gives shader code a fresh import path of the editor's own, dropping any
/// import-path directive it has: the directive line comes first, then every
/// other line of the code followed by a line feed.
pub fn add_unique_shader_import_path(code: &str, editor_state: &mut EditorState) -> (unique:
    String)
    requires
        old(editor_state).next_shader_id < u32::MAX,
    ensures
        unique@ == unique_shader_text(old(editor_state).next_shader_id, code@),
        final(editor_state).next_shader_id == old(editor_state).next_shader_id + 1,
        final(editor_state).next_shape_id == old(editor_state).next_shape_id,
        final(editor_state).selected_tab == old(editor_state).selected_tab,
        final(editor_state).scroll_to == old(editor_state).scroll_to,
{
    let id = editor_state.create_shader();
    let mut result = String::from_str(IMPORT_PATH_DIRECTIVE);
    result.append(EDITOR_SHADER_PATH);
    let digits = decimal_text(id);
    result.append(digits.as_str());
    proof {
        reveal_strlit("\n");
    }
    result.append("\n");
    let ghost header = result@;
    let chars = chars_of(code);
    let marker = chars_of(IMPORT_PATH_MARKER);
    let mut start: usize = 0;
    let mut i: usize = 0;
    let ghost mut ended: Seq<Seq<char>> = Seq::empty();
    while i < chars.len()
        invariant
            start <= i <= chars.len(),
            chars@ == code@,
            marker@ == IMPORT_PATH_MARKER@,
            lines_scan(code@, i as int) == (ended, chars@.subrange(start as int, i as int)),
            result@ == header + kept_lines_text(ended),
        decreases chars.len() - i,
    {
        if chars[i] == '\n' {
            let ghost current = chars@.subrange(start as int, i as int);
            let end = if i > start && chars[i - 1] == '\r' {
                i - 1
            } else {
                i
            };
            assert(strip_cr(current) =~= chars@.subrange(start as int, end as int));
            append_kept_line(&mut result, code, &chars, start, end, &marker);
            proof {
                lemma_kept_lines_push(ended, strip_cr(current));
                ended = ended.push(strip_cr(current));
            }
            start = i + 1;
        } else {
            assert(chars@.subrange(start as int, i + 1) =~= chars@.subrange(start as int, i as int).push(
                chars@[i as int],
            ));
        }
        i = i + 1;
    }
    if start < chars.len() {
        let ghost current = chars@.subrange(start as int, chars.len() as int);
        append_kept_line(&mut result, code, &chars, start, chars.len(), &marker);
        proof {
            lemma_kept_lines_push(ended, current);
        }
    }
    result
}

/// The tab to show once shape `id` is deleted, given the identifiers of all
/// shapes: the nearest shape with a smaller identifier, else the nearest with
/// a larger one, else the global tab.
pub open spec fn tab_after_delete_spec(ids: Seq<u32>, id: u32) -> SelectedTab {
    if exists|i: int| 0 <= i < ids.len() && #[trigger] ids[i] < id {
        let b = choose|i: int|
            0 <= i < ids.len() && #[trigger] ids[i] < id && forall|j: int|
                0 <= j < ids.len() && #[trigger] ids[j] < id ==> ids[j] <= ids[i];
        SelectedTab::Shape(ids[b])
    } else if exists|i: int| 0 <= i < ids.len() && #[trigger] ids[i] > id {
        let a = choose|i: int|
            0 <= i < ids.len() && #[trigger] ids[i] > id && forall|j: int|
                0 <= j < ids.len() && #[trigger] ids[j] > id ==> ids[j] >= ids[i];
        SelectedTab::Shape(ids[a])
    } else {
        SelectedTab::Global
    }
}

/// The tab to show once shape `id` is deleted (see [`tab_after_delete_spec`]).
pub fn tab_after_delete(ids: &Vec<u32>, id: u32) -> (tab: SelectedTab)
    ensures
        tab == tab_after_delete_spec(ids@, id),
{
    let mut below: Option<u32> = None;
    let mut above: Option<u32> = None;
    let mut i: usize = 0;
    while i < ids.len()
        invariant
            i <= ids.len(),
            below matches Some(b) ==> (exists|j: int| 0 <= j < i && #[trigger] ids@[j] == b) && b
                < id && forall|j: int| 0 <= j < i && #[trigger] ids@[j] < id ==> ids@[j] <= b,
            below is None ==> forall|j: int| 0 <= j < i ==> !(#[trigger] ids@[j] < id),
            above matches Some(a) ==> (exists|j: int| 0 <= j < i && #[trigger] ids@[j] == a) && a
                > id && forall|j: int| 0 <= j < i && #[trigger] ids@[j] > id ==> ids@[j] >= a,
            above is None ==> forall|j: int| 0 <= j < i ==> !(#[trigger] ids@[j] > id),
        decreases ids.len() - i,
    {
        let x = ids[i];
        if x < id {
            match below {
                Some(b) => if x > b {
                    below = Some(x);
                },
                None => below = Some(x),
            }
        } else if x > id {
            match above {
                Some(a) => if x < a {
                    above = Some(x);
                },
                None => above = Some(x),
            }
        }
        i = i + 1;
    }
    proof {
        let ids_s = ids@;
        match below {
            Some(b) => {
                let j = choose|j: int| 0 <= j < ids_s.len() && #[trigger] ids_s[j] == b;
                assert(ids_s[j] < id);
                let c = choose|i: int|
                    0 <= i < ids_s.len() && #[trigger] ids_s[i] < id && forall|k: int|
                        0 <= k < ids_s.len() && #[trigger] ids_s[k] < id ==> ids_s[k] <= ids_s[i];
                assert(ids_s[c] <= b);
                assert(ids_s[j] <= ids_s[c]);
            },
            None => {
                match above {
                    Some(a) => {
                        let j = choose|j: int| 0 <= j < ids_s.len() && #[trigger] ids_s[j] == a;
                        assert(ids_s[j] > id);
                        let c = choose|i: int|
                            0 <= i < ids_s.len() && #[trigger] ids_s[i] > id && forall|k: int|
                                0 <= k < ids_s.len() && #[trigger] ids_s[k] > id ==> ids_s[k]
                                    >= ids_s[i];
                        assert(ids_s[c] >= a);
                        assert(ids_s[j] >= ids_s[c]);
                    },
                    None => {},
                }
            },
        }
    }
    match below {
        Some(b) => SelectedTab::Shape(b),
        None => match above {
            Some(a) => SelectedTab::Shape(a),
            None => SelectedTab::Global,
        },
    }
}

proof fn lemma_decimal_digits_shape(n: nat)
    ensures
        decimal_digits(n).len() >= 1,
        n >= 10 ==> decimal_digits(n).len() >= 2,
        forall|i: int|
            0 <= i < decimal_digits(n).len() ==> 48 <= #[trigger] (decimal_digits(n)[i] as int) <= 57,
    decreases n,
{
    if n >= 10 {
        lemma_decimal_digits_shape(n / 10);
        let prev = decimal_digits(n / 10);
        assert forall|i: int| 0 <= i < decimal_digits(n).len() implies 48 <= #[trigger] (
        decimal_digits(n)[i] as int) <= 57 by {
            if i < prev.len() {
                assert(decimal_digits(n)[i] == prev[i]);
            }
        }
    }
}

proof fn lemma_decimal_digits_injective(a: nat, b: nat)
    requires
        decimal_digits(a) == decimal_digits(b),
    ensures
        a == b,
    decreases a,
{
    lemma_decimal_digits_shape(a);
    lemma_decimal_digits_shape(b);
    let da = decimal_digits(a);
    let db = decimal_digits(b);
    if a < 10 && b < 10 {
        assert(da[0] == db[0]);
    } else if a >= 10 && b >= 10 {
        assert(da.drop_last() =~= decimal_digits(a / 10));
        assert(db.drop_last() =~= decimal_digits(b / 10));
        lemma_decimal_digits_injective(a / 10, b / 10);
        assert(da.last() == db.last());
    } else {
        assert(da.len() != db.len());
    }
}

/// The import paths the editor gives are unique: shader code made unique
/// under two different shader identifiers never reads the same, whatever the
/// two codes are.
pub proof fn lemma_unique_paths_differ(a: u32, b: u32, code_a: Seq<char>, code_b: Seq<char>)
    requires
        a != b,
    ensures
        unique_shader_text(a, code_a) != unique_shader_text(b, code_b),
{
    let da = decimal_digits(a as nat);
    let db = decimal_digits(b as nat);
    lemma_decimal_digits_shape(a as nat);
    lemma_decimal_digits_shape(b as nat);
    let prefix = IMPORT_PATH_DIRECTIVE@ + EDITOR_SHADER_PATH@;
    let ta = unique_shader_text(a, code_a);
    let tb = unique_shader_text(b, code_b);
    if ta == tb {
        let p = prefix.len() as int;
        assert(ta =~= prefix + da + seq!['\n'] + kept_lines_text(text_lines(code_a)));
        assert(tb =~= prefix + db + seq!['\n'] + kept_lines_text(text_lines(code_b)));
        if da.len() < db.len() {
            assert(ta[p + da.len()] == '\n');
            assert(tb[p + da.len()] == db[da.len() as int]);
            assert(48 <= (db[da.len() as int] as int) <= 57);
        } else if db.len() < da.len() {
            assert(tb[p + db.len()] == '\n');
            assert(ta[p + db.len()] == da[db.len() as int]);
            assert(48 <= (da[db.len() as int] as int) <= 57);
        } else {
            assert(da =~= ta.subrange(p, p + da.len()));
            assert(db =~= tb.subrange(p, p + db.len()));
            lemma_decimal_digits_injective(a as nat, b as nat);
        }
    }
}

} // verus!

//! A graph node: its identifier, its display attributes and its DOT text.

use crate::style::Style;
use crate::utils::{lemma_plain_text, needs_escape, quote_string, quoted};
use vstd::prelude::*;

verus! {

/// The characters a node name may start with: an ASCII letter, an underscore
/// or a dot.
pub open spec fn is_name_start(c: char) -> bool {
    ('a' <= c && c <= 'z') || ('A' <= c && c <= 'Z') || c == '_' || c == '.'
}

/// The characters a node name may continue with: those it may start with, and
/// the ASCII digits.
pub open spec fn is_name_constituent(c: char) -> bool {
    is_name_start(c) || ('0' <= c && c <= '9')
}

/// The names a node may have: the non-empty texts of the form
/// `[a-zA-Z_.][a-zA-Z_.0-9]*`.
pub open spec fn valid_name(name: Seq<char>) -> bool {
    &&& name.len() > 0
    &&& is_name_start(name[0])
    &&& forall|i: int| 1 <= i < name.len() ==> is_name_constituent(#[trigger] name[i])
}

/// Why a text is refused as a node name.
#[derive(Clone, Copy, Debug, PartialEq, Eq, Structural)]
pub enum NameError {
    /// The text is empty, or its first character cannot start a name.
    BadStart,
    /// The first character is fine, but a later one cannot occur in a name.
    BadConstituent,
}

impl NameError {
    /// What is wrong with a refused name, in words.
    pub open spec fn message_text(self) -> Seq<char> {
        match self {
            NameError::BadStart =>
                "The name of the node should start with a letter or underscore or dot"@,
            NameError::BadConstituent =>
                "The name of the node should only contain letter/number/underscore/dot"@,
        }
    }

    /// Says in words what is wrong with a refused name.
    pub fn message(&self) -> (text: &'static str)
        ensures
            text@ == self.message_text(),
    {
        match self {
            NameError::BadStart =>
                "The name of the node should start with a letter or underscore or dot",
            NameError::BadConstituent =>
                "The name of the node should only contain letter/number/underscore/dot",
        }
    }
}

/// The reason for which `name` is refused, if it is. A bad first character is
/// reported whatever follows it.
pub open spec fn name_fault(name: Seq<char>) -> Option<NameError> {
    if name.len() == 0 || !is_name_start(name[0]) {
        Some(NameError::BadStart)
    } else if exists|i: int| 1 <= i < name.len() && !is_name_constituent(#[trigger] name[i]) {
        Some(NameError::BadConstituent)
    } else {
        None
    }
}

/// A text is refused for exactly one reason, or it is a valid name.
pub proof fn lemma_name_fault(name: Seq<char>)
    ensures
        name_fault(name) is None <==> valid_name(name),
        name_fault(name) == Some(NameError::BadStart) <==> name.len() == 0 || !is_name_start(
            name[0],
        ),
        name_fault(name) == Some(NameError::BadConstituent) <==> name.len() > 0 && is_name_start(
            name[0],
        ) && !valid_name(name),
{
}

/// A text that is empty, that starts with a digit or with any other
/// character that cannot start a name, or that holds, anywhere, a character
/// that cannot occur in a name, is refused: it is no valid name and
/// [`check_name`] finds a fault in it. So neither [`new_name`] nor
/// [`Node::new`] can be called on it, and as both keep the text they are
/// given as it is, no node is made from it, whole or mended.
pub proof fn lemma_rejected_names(name: Seq<char>)
    requires
        name.len() == 0 || ('0' <= name[0] && name[0] <= '9') || !is_name_start(name[0]) || (
        exists|i: int| 0 <= i < name.len() && !is_name_constituent(#[trigger] name[i])),
    ensures
        !valid_name(name),
        name_fault(name) is Some,
{
}

/// Every text that is no valid name is refused for one of these reasons: it
/// is empty, its first character cannot start a name, or a later character
/// cannot occur in a name.
pub proof fn lemma_refusal_reasons(name: Seq<char>)
    requires
        !valid_name(name),
    ensures
        name.len() == 0 || !is_name_start(name[0]) || (exists|i: int|
            1 <= i < name.len() && !is_name_constituent(#[trigger] name[i])),
{
}

/// Nothing in a valid name needs escaping: it holds no double quote, no
/// backslash and no line feed.
pub proof fn lemma_valid_name_is_plain(name: Seq<char>)
    requires
        valid_name(name),
    ensures
        forall|i: int| 0 <= i < name.len() ==> !needs_escape(#[trigger] name[i]),
{
}

fn in_range(low: char, c: char, high: char) -> (inside: bool)
    ensures
        inside == (low <= c && c <= high),
{
    low <= c && c <= high
}

fn is_letter_or_underscore_or_dot(c: char) -> (accepted: bool)
    ensures
        accepted == is_name_start(c),
{
    in_range('a', c, 'z') || in_range('A', c, 'Z') || c == '_' || c == '.'
}

fn is_constituent(c: char) -> (accepted: bool)
    ensures
        accepted == is_name_constituent(c),
{
    is_letter_or_underscore_or_dot(c) || in_range('0', c, '9')
}

/// Looks for what makes `name` unfit to name a node, and finds nothing
/// exactly when the name is valid. The first character is judged first;
/// all later characters are then looked at, whatever was found before.
pub fn check_name(name: &str) -> (fault: Option<NameError>)
    ensures
        fault == name_fault(name@),
{
    broadcast use vstd::string::axiom_spec_iter;

    let mut at_start = true;
    let mut start_fits = false;
    let mut rest_fits = true;
    let chars = name.chars();
    for c in it: chars
        invariant
            it.seq() == name@,
            at_start <==> it.index() == 0,
            start_fits <==> !at_start && is_name_start(name@[0]),
            rest_fits <==> forall|i: int|
                1 <= i < it.index() ==> is_name_constituent(#[trigger] name@[i]),
    {
        if at_start {
            start_fits = is_letter_or_underscore_or_dot(c);
            at_start = false;
        } else if !is_constituent(c) {
            rest_fits = false;
        }
    }
    if !start_fits {
        Some(NameError::BadStart)
    } else if !rest_fits {
        Some(NameError::BadConstituent)
    } else {
        None
    }
}

/// Turns a valid name into the identifier of a node: the same text,
/// unchanged, as an owned string.
///
/// The name has to be valid. A text of unknown origin goes through
/// [`check_name`] first; what is to happen to a refused one is for the
/// caller to decide.
pub fn new_name(name: &str) -> (id: String)
    requires
        valid_name(name@),
    ensures
        id@ == name@,
{
    name.to_owned()
}

/// One vertex of a graph, as it is to be drawn.
///
/// A node can only be made under a valid name, and its name cannot change
/// afterwards, so that every node carries a name accepted by [`valid_name`]. All other
/// attributes are free text, or a [`Style`], and can be replaced at will.
pub struct Node {
    name: String,
    label: String,
    style: Style,
    color: Option<String>,
    shape: Option<String>,
    url: String,
}

/// What a [`Node`] holds, as mathematical values.
pub struct NodeView {
    /// The identifier of the node.
    pub name: Seq<char>,
    /// The text displayed for the node.
    pub label: Seq<char>,
    /// The drawing style, `Style::NoStyle` if there is none.
    pub style: Style,
    /// The colour, if one is set.
    pub color: Option<Seq<char>>,
    /// The shape, if one is set.
    pub shape: Option<Seq<char>>,
    /// The link target; the empty text stands for no link.
    pub url: Seq<char>,
}

impl NodeView {
    /// The node that has just been made under `name`: it is labelled with
    /// its name and has no style, colour, shape or link.
    pub open spec fn fresh(name: Seq<char>) -> NodeView {
        NodeView {
            name,
            label: name,
            style: Style::NoStyle,
            color: None,
            shape: None,
            url: Seq::empty(),
        }
    }

    /// The same node with another label.
    pub open spec fn with_label(self, label: Seq<char>) -> NodeView {
        NodeView { label, ..self }
    }

    /// The same node with another style.
    pub open spec fn with_style(self, style: Style) -> NodeView {
        NodeView { style, ..self }
    }

    /// The same node with another shape, or with none.
    pub open spec fn with_shape(self, shape: Option<Seq<char>>) -> NodeView {
        NodeView { shape, ..self }
    }

    /// The same node with another colour, or with none.
    pub open spec fn with_color(self, color: Option<Seq<char>>) -> NodeView {
        NodeView { color, ..self }
    }

    /// The same node with another link target.
    pub open spec fn with_url(self, url: Seq<char>) -> NodeView {
        NodeView { url, ..self }
    }

    /// The node's identifier between double quotes, exactly as it is.
    pub open spec fn id_clause(self) -> Seq<char> {
        "\""@ + self.name + "\""@
    }

    /// The label clause, which is always there; the label is quoted.
    pub open spec fn label_clause(self) -> Seq<char> {
        "[label="@ + quoted(self.label) + "]"@
    }

    /// The link clause, there unless the link is empty; the link is quoted.
    pub open spec fn url_clause(self) -> Seq<char> {
        if self.url.len() == 0 {
            Seq::empty()
        } else {
            "[URL="@ + quoted(self.url) + "]"@
        }
    }

    /// The style clause, there unless the style is `Style::NoStyle`: the
    /// style's keyword between double quotes.
    pub open spec fn style_clause(self) -> Seq<char> {
        if self.style == Style::NoStyle {
            Seq::empty()
        } else {
            "[style=\""@ + self.style.keyword() + "\"]"@
        }
    }

    /// The colour clause, there if a colour is set; the colour is quoted.
    pub open spec fn color_clause(self) -> Seq<char> {
        match self.color {
            Some(color) => "[color="@ + quoted(color) + "]"@,
            None => Seq::empty(),
        }
    }

    /// The shape clause, there if a shape is set: the shape between double
    /// quotes, exactly as it is, with nothing in it escaped.
    pub open spec fn shape_clause(self) -> Seq<char> {
        match self.shape {
            Some(shape) => "[shape=\""@ + shape + "\"]"@,
            None => Seq::empty(),
        }
    }

    /// The DOT text of the node: identifier, label, link, style, colour and
    /// shape, in this order, closed by a semicolon.
    pub open spec fn dot_text(self) -> Seq<char> {
        self.id_clause() + self.label_clause() + self.url_clause() + self.style_clause()
            + self.color_clause() + self.shape_clause() + ";"@
    }
}

/// The view of an optional owned text.
spec fn text_view(text: Option<String>) -> Option<Seq<char>> {
    match text {
        Some(t) => Some(t@),
        None => None,
    }
}

/// The view of an optional borrowed text.
pub open spec fn str_view(text: Option<&str>) -> Option<Seq<char>> {
    match text {
        Some(t) => Some(t@),
        None => None,
    }
}

impl View for Node {
    type V = NodeView;

    closed spec fn view(&self) -> NodeView {
        NodeView {
            name: self.name@,
            label: self.label@,
            style: self.style,
            color: text_view(self.color),
            shape: text_view(self.shape),
            url: self.url@,
        }
    }
}

impl Clone for Node {
    fn clone(&self) -> (copy: Self)
        ensures
            copy@ == self@,
    {
        proof {
            use_type_invariant(self);
        }
        Node {
            name: self.name.clone(),
            label: self.label.clone(),
            style: self.style,
            color: self.color.clone(),
            shape: self.shape.clone(),
            url: self.url.clone(),
        }
    }
}

impl Node {
    #[verifier::type_invariant]
    spec fn name_is_valid(&self) -> bool {
        valid_name(self.name@)
    }

    /// Makes the node called `name`, labelled with its name and with no
    /// other attribute.
    ///
    /// The name has to be valid: [`check_name`] tells whether a text is.
    pub fn new(name: &str) -> (node: Self)
        requires
            valid_name(name@),
        ensures
            node@ == NodeView::fresh(name@),
    {
        Node {
            name: new_name(name),
            label: name.to_owned(),
            style: Style::NoStyle,
            color: None,
            shape: None,
            url: String::new(),
        }
    }

    /// The name of the node, which is always a valid one.
    pub fn name(&self) -> (name: &str)
        ensures
            name@ == self@.name,
            valid_name(name@),
    {
        proof {
            use_type_invariant(self);
        }
        self.name.as_str()
    }

    /// Replaces the label. Any text will do: it is escaped when the node is
    /// rendered.
    pub fn label(self, label: &str) -> (node: Self)
        ensures
            node@ == self@.with_label(label@),
    {
        proof {
            use_type_invariant(&self);
        }
        let mut node = self;
        node.label = label.to_owned();
        node
    }

    /// Replaces the style.
    pub fn style(self, style: Style) -> (node: Self)
        ensures
            node@ == self@.with_style(style),
    {
        proof {
            use_type_invariant(&self);
        }
        let mut node = self;
        node.style = style;
        node
    }

    /// Sets the shape, or removes it.
    pub fn shape(self, shape: Option<&str>) -> (node: Self)
        ensures
            node@ == self@.with_shape(str_view(shape)),
    {
        proof {
            use_type_invariant(&self);
        }
        let mut node = self;
        match shape {
            Some(s) => node.shape = Some(s.to_owned()),
            None => node.shape = None,
        }
        node
    }

    /// Sets the colour, or removes it.
    pub fn color(self, color: Option<&str>) -> (node: Self)
        ensures
            node@ == self@.with_color(str_view(color)),
    {
        proof {
            use_type_invariant(&self);
        }
        let mut node = self;
        node.color = match color {
            Some(c) => Some(c.to_owned()),
            None => None,
        };
        node
    }

    /// Replaces the link target. The empty text removes the link.
    pub fn url(self, url: String) -> (node: Self)
        ensures
            node@ == self@.with_url(url@),
    {
        proof {
            use_type_invariant(&self);
        }
        let mut node = self;
        node.url = url;
        node
    }

    /// Renders the node as one line of DOT, without a line break at its end.
    ///
    /// The text depends on nothing but what the node holds, and the node is
    /// left as it is: rendering it again gives the same text.
    pub fn to_dot_string(&self) -> (text: String)
        ensures
            text@ == self@.dot_text(),
    {
        let escaped_label: String = quote_string(self.label.clone());
        let escaped_url: String = quote_string(self.url.clone());
        let ghost done = self@.id_clause() + self@.label_clause();

        let mut text = String::new();
        text.append("\"");
        text.append(self.name.as_str());
        text.append("\"");

        text.append("[label=");
        text.append(escaped_label.as_str());
        text.append("]");
        assert(text@ == done);

        if !self.url.as_str().is_empty() {
            text.append("[URL=");
            text.append(escaped_url.as_str());
            text.append("]");
        }
        let ghost done = done + self@.url_clause();
        assert(text@ == done);

        if self.style != Style::NoStyle {
            text.append("[style=\"");
            text.append(self.style.as_slice());
            text.append("\"]");
        }
        let ghost done = done + self@.style_clause();
        assert(text@ == done);

        if let Some(c) = &self.color {
            let colorstring: String = quote_string(c.clone());
            text.append("[color=");
            text.append(colorstring.as_str());
            text.append("]");
        }
        let ghost done = done + self@.color_clause();
        assert(text@ == done);

        if let Some(s) = &self.shape {
            text.append("[shape=\"");
            text.append(s.as_str());
            text.append("\"]");
        }
        let ghost done = done + self@.shape_clause();
        assert(text@ == done);

        text.append(";");
        text
    }
}

/// The rendered text starts with the identifier between double quotes,
/// character for character.
pub proof fn lemma_identity_verbatim(node: NodeView)
    ensures
        node.id_clause() == seq!['"'] + node.name + seq!['"'],
        node.id_clause().is_prefix_of(node.dot_text()),
{
    reveal_strlit("\"");
    let clause = node.id_clause();
    assert(node.dot_text().subrange(0, clause.len() as int) == clause);
}

/// A node that has just been made under a valid name renders as its quoted
/// name and a label clause that holds the same quoted name.
pub proof fn lemma_fresh_text(name: Seq<char>)
    requires
        valid_name(name),
    ensures
        NodeView::fresh(name).dot_text() == "\""@ + name + "\"[label=\""@ + name + "\"];"@,
{
    reveal_strlit("\"");
    reveal_strlit("[label=");
    reveal_strlit("]");
    reveal_strlit(";");
    reveal_strlit("\"[label=\"");
    reveal_strlit("\"];");
    lemma_valid_name_is_plain(name);
    lemma_plain_text(name);
}

/// Setting only a colour on a node that has just been made adds the colour
/// clause, with the colour quoted, and no other clause.
pub proof fn lemma_color_only_text(name: Seq<char>, color: Seq<char>)
    requires
        valid_name(name),
    ensures
        NodeView::fresh(name).with_color(Some(color)).dot_text() == "\""@ + name
            + "\"[label=\""@ + name + "\"][color="@ + quoted(color) + "];"@,
{
    reveal_strlit("\"");
    reveal_strlit("[label=");
    reveal_strlit("]");
    reveal_strlit(";");
    reveal_strlit("[color=");
    reveal_strlit("\"[label=\"");
    reveal_strlit("\"][color=");
    reveal_strlit("];");
    lemma_valid_name_is_plain(name);
    lemma_plain_text(name);
}

/// Setters of different attributes can be called in any order: the node
/// that results is the same.
pub proof fn lemma_setters_commute(
    node: NodeView,
    label: Seq<char>,
    style: Style,
    shape: Option<Seq<char>>,
    color: Option<Seq<char>>,
    url: Seq<char>,
)
    ensures
        node.with_label(label).with_style(style) == node.with_style(style).with_label(label),
        node.with_label(label).with_shape(shape) == node.with_shape(shape).with_label(label),
        node.with_label(label).with_color(color) == node.with_color(color).with_label(label),
        node.with_label(label).with_url(url) == node.with_url(url).with_label(label),
        node.with_style(style).with_shape(shape) == node.with_shape(shape).with_style(style),
        node.with_style(style).with_color(color) == node.with_color(color).with_style(style),
        node.with_style(style).with_url(url) == node.with_url(url).with_style(style),
        node.with_shape(shape).with_color(color) == node.with_color(color).with_shape(shape),
        node.with_shape(shape).with_url(url) == node.with_url(url).with_shape(shape),
        node.with_color(color).with_url(url) == node.with_url(url).with_color(color),
{
}

/// When a style, a colour and a shape are set, in whatever order, the
/// rendered clauses come in the order label, link, style, colour, shape.
pub proof fn lemma_clause_order(
    node: NodeView,
    style: Style,
    color: Seq<char>,
    shape: Seq<char>,
)
    requires
        style != Style::NoStyle,
    ensures
        ({
            let set = node.with_style(style).with_color(Some(color)).with_shape(Some(shape));
            &&& set == node.with_style(style).with_shape(Some(shape)).with_color(Some(color))
            &&& set == node.with_color(Some(color)).with_style(style).with_shape(Some(shape))
            &&& set == node.with_color(Some(color)).with_shape(Some(shape)).with_style(style)
            &&& set == node.with_shape(Some(shape)).with_style(style).with_color(Some(color))
            &&& set == node.with_shape(Some(shape)).with_color(Some(color)).with_style(style)
            &&& set.dot_text() == node.id_clause() + node.label_clause() + node.url_clause()
                + ("[style=\""@ + style.keyword() + "\"]"@) + ("[color="@ + quoted(color) + "]"@)
                + ("[shape=\""@ + shape + "\"]"@) + ";"@
        }),
{
}

/// The shape is rendered as it is: setting one puts `[shape="`, the shape
/// itself with nothing escaped, and `"]` right before the closing
/// semicolon, and changes nothing else.
pub proof fn lemma_shape_verbatim(node: NodeView, shape: Seq<char>)
    ensures
        node.with_shape(Some(shape)).dot_text() == node.with_shape(None).dot_text().drop_last()
            + "[shape=\""@ + shape + "\"];"@,
{
    reveal_strlit(";");
    reveal_strlit("\"]");
    reveal_strlit("\"];");
    let bare = node.with_shape(None);
    let body = bare.id_clause() + bare.label_clause() + bare.url_clause() + bare.style_clause()
        + bare.color_clause();
    assert(bare.dot_text().drop_last() == body);
    assert(node.with_shape(Some(shape)).dot_text() == body + "[shape=\""@ + shape + "\"];"@);
}

} // verus!

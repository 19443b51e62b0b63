//! The attribute model: what a field's `uniform` annotation may say, and how
//! it is read into a record of flags.
//!
//! An annotation is written as a list of items, `uniform(ignore, shader_def)`.
//! Each item names one flag and is a bare word, `ignore`, or gives a value,
//! `ignore = false` or `ignore = "false"`. Reading is lenient: an annotation
//! that is not a list, names a flag twice, names anything that is no flag, or
//! gives a flag something that is no boolean, is read as no annotation at all.

use crate::search::{first_match, is_first, lemma_first_match_absent, lemma_first_match_found};
use vstd::prelude::*;

verus! {

/// One item between the parentheses of an annotation.
#[derive(Clone, Debug, PartialEq, Eq)]
pub enum MetaItem {
    /// A bare name: `ignore`.
    Word { name: String },
    /// A name with a boolean literal: `ignore = true`.
    Bool { name: String, value: bool },
    /// A name with a string literal: `ignore = "true"`.
    Str { name: String, text: String },
    /// A name in any other form: `ignore(..)`, `ignore = 3`.
    Other { name: String },
    /// A literal that stands alone: `"text"`.
    Literal,
}

pub enum MetaItemView {
    Word { name: Seq<char> },
    Bool { name: Seq<char>, value: bool },
    Str { name: Seq<char>, text: Seq<char> },
    Other { name: Seq<char> },
    Literal,
}

impl View for MetaItem {
    type V = MetaItemView;

    open spec fn view(&self) -> MetaItemView {
        match self {
            MetaItem::Word { name } => MetaItemView::Word { name: name@ },
            MetaItem::Bool { name, value } => MetaItemView::Bool { name: name@, value: *value },
            MetaItem::Str { name, text } => MetaItemView::Str { name: name@, text: text@ },
            MetaItem::Other { name } => MetaItemView::Other { name: name@ },
            MetaItem::Literal => MetaItemView::Literal,
        }
    }
}

/// An attribute on a field: its name, and the items of its list where it is
/// written as one.
#[derive(Clone, Debug, PartialEq, Eq)]
pub struct Attribute {
    pub name: String,
    pub args: Option<Vec<MetaItem>>,
}

pub struct AttributeView {
    pub name: Seq<char>,
    pub args: Option<Seq<MetaItemView>>,
}

impl View for Attribute {
    type V = AttributeView;

    open spec fn view(&self) -> AttributeView {
        AttributeView {
            name: self.name@,
            args: match self.args {
                Some(items) => Some(items@.map_values(|item: MetaItem| item@)),
                None => None,
            },
        }
    }
}

/// The views of a vector of attributes, in order.
pub open spec fn attribute_views(attrs: Seq<Attribute>) -> Seq<AttributeView> {
    attrs.map_values(|attr: Attribute| attr@)
}

/// The flags of an annotation as they were written: each present or not.
#[derive(Clone, Copy, Debug, PartialEq, Eq)]
pub struct UniformAttributeArgs {
    pub ignore: Option<bool>,
    pub shader_def: Option<bool>,
    pub instance: Option<bool>,
    pub vertex: Option<bool>,
    pub buffer: Option<bool>,
}

/// The flags of a field, each `false` unless its annotation sets it.
#[derive(Clone, Copy, Debug, PartialEq, Eq, Structural)]
pub struct UniformAttributes {
    /// The field takes no part in uniform or texture binding.
    pub ignore: bool,
    /// The field's optional value contributes a shader define.
    pub shader_def: bool,
    /// The field is vertex input that steps once per instance.
    pub instance: bool,
    /// The field is vertex input that steps once per vertex.
    pub vertex: bool,
    /// The field is bound as a raw sized buffer.
    pub buffer: bool,
}

/// The name of the annotation that this crate reads.
pub open spec fn annotation_name() -> Seq<char> {
    "uniform"@
}

pub open spec fn unset_args() -> UniformAttributeArgs {
    UniformAttributeArgs { ignore: None, shader_def: None, instance: None, vertex: None, buffer: None }
}

pub open spec fn unset_attributes() -> UniformAttributes {
    UniformAttributes { ignore: false, shader_def: false, instance: false, vertex: false, buffer: false }
}

/// A flag that was not written is `false`.
pub open spec fn flag_or_false(flag: Option<bool>) -> bool {
    match flag {
        Some(value) => value,
        None => false,
    }
}

pub open spec fn attributes_from_args(args: UniformAttributeArgs) -> UniformAttributes {
    UniformAttributes {
        ignore: flag_or_false(args.ignore),
        shader_def: flag_or_false(args.shader_def),
        instance: flag_or_false(args.instance),
        vertex: flag_or_false(args.vertex),
        buffer: flag_or_false(args.buffer),
    }
}

/// The boolean that a string literal stands for: `true` and `false`, nothing else.
pub open spec fn bool_of_text(text: Seq<char>) -> Option<bool> {
    if text == "true"@ {
        Some(true)
    } else if text == "false"@ {
        Some(false)
    } else {
        None
    }
}

/// The name that an item carries; a lone literal carries none.
pub open spec fn item_name(item: MetaItemView) -> Option<Seq<char>> {
    match item {
        MetaItemView::Word { name } => Some(name),
        MetaItemView::Bool { name, .. } => Some(name),
        MetaItemView::Str { name, .. } => Some(name),
        MetaItemView::Other { name } => Some(name),
        MetaItemView::Literal => None,
    }
}

/// The value that an item gives the flag it names: a bare word sets it, a
/// boolean or a string that spells one gives that value, no other form gives any.
pub open spec fn item_flag(item: MetaItemView) -> Option<bool> {
    match item {
        MetaItemView::Word { .. } => Some(true),
        MetaItemView::Bool { value, .. } => Some(value),
        MetaItemView::Str { text, .. } => bool_of_text(text),
        MetaItemView::Other { .. } => None,
        MetaItemView::Literal => None,
    }
}

pub open spec fn is_flag_name(name: Seq<char>) -> bool {
    ||| name == "ignore"@
    ||| name == "shader_def"@
    ||| name == "instance"@
    ||| name == "vertex"@
    ||| name == "buffer"@
}

/// Item `i` is in order: a lone literal is passed over; any other item names
/// a flag that no earlier item names, and gives it a boolean.
pub open spec fn item_accepted(items: Seq<MetaItemView>, i: int) -> bool {
    items[i] is Literal || {
        &&& is_flag_name(item_name(items[i])->0)
        &&& item_flag(items[i]) is Some
        &&& forall|j: int| 0 <= j < i ==> item_name(#[trigger] items[j]) != item_name(items[i])
    }
}

/// Every item of the list is in order.
pub open spec fn list_accepted(items: Seq<MetaItemView>) -> bool {
    forall|i: int| 0 <= i < items.len() ==> #[trigger] item_accepted(items, i)
}

/// The items that name `key`.
pub open spec fn names(key: Seq<char>) -> spec_fn(MetaItemView) -> bool {
    |item: MetaItemView| item_name(item) == Some(key)
}

/// The value that the list gives the flag `key`: that of the first item that
/// names it.
pub open spec fn list_flag(items: Seq<MetaItemView>, key: Seq<char>) -> Option<bool> {
    match first_match(items, names(key)) {
        Some(i) => item_flag(items[i]),
        None => None,
    }
}

/// The flags that a list of items sets, or nothing where the list is not in order.
pub open spec fn args_of_list(items: Seq<MetaItemView>) -> Option<UniformAttributeArgs> {
    if list_accepted(items) {
        Some(
            UniformAttributeArgs {
                ignore: list_flag(items, "ignore"@),
                shader_def: list_flag(items, "shader_def"@),
                instance: list_flag(items, "instance"@),
                vertex: list_flag(items, "vertex"@),
                buffer: list_flag(items, "buffer"@),
            },
        )
    } else {
        None
    }
}

/// The flags of one annotation read strictly: those of its list, or nothing
/// where the annotation is not written as a list or the list is not in order.
pub open spec fn checked_attributes_of(attr: AttributeView) -> Option<UniformAttributes> {
    match attr.args {
        Some(items) => match args_of_list(items) {
            Some(args) => Some(attributes_from_args(args)),
            None => None,
        },
        None => None,
    }
}

/// The flags of one annotation read leniently: all unset where a strict
/// reading gives nothing.
pub open spec fn attributes_of_annotation(attr: AttributeView) -> UniformAttributes {
    match checked_attributes_of(attr) {
        Some(attributes) => attributes,
        None => unset_attributes(),
    }
}

/// The attributes that are the annotation this crate reads.
pub open spec fn is_annotation() -> spec_fn(AttributeView) -> bool {
    |attr: AttributeView| attr.name == annotation_name()
}

/// The flags of a field with the attributes `attrs`: those of the first
/// attribute named `uniform`, all unset where there is none.
pub open spec fn attributes_of(attrs: Seq<AttributeView>) -> UniformAttributes {
    match first_match(attrs, is_annotation()) {
        Some(i) => attributes_of_annotation(attrs[i]),
        None => unset_attributes(),
    }
}

/// The flags of a field read strictly: as `attributes_of`, but nothing where
/// the annotation that counts is not in order.
pub open spec fn checked_attributes(attrs: Seq<AttributeView>) -> Option<UniformAttributes> {
    match first_match(attrs, is_annotation()) {
        Some(i) => checked_attributes_of(attrs[i]),
        None => Some(unset_attributes()),
    }
}

impl Default for UniformAttributeArgs {
    fn default() -> (r: Self)
        ensures
            r == unset_args(),
    {
        UniformAttributeArgs { ignore: None, shader_def: None, instance: None, vertex: None, buffer: None }
    }
}

impl Default for UniformAttributes {
    fn default() -> (r: Self)
        ensures
            r == unset_attributes(),
    {
        UniformAttributes { ignore: false, shader_def: false, instance: false, vertex: false, buffer: false }
    }
}

impl From<UniformAttributeArgs> for UniformAttributes {
    fn from(args: UniformAttributeArgs) -> (r: Self) {
        UniformAttributes {
            ignore: args.ignore.unwrap_or(false),
            shader_def: args.shader_def.unwrap_or(false),
            instance: args.instance.unwrap_or(false),
            vertex: args.vertex.unwrap_or(false),
            buffer: args.buffer.unwrap_or(false),
        }
    }
}

impl vstd::std_specs::convert::FromSpecImpl<UniformAttributeArgs> for UniformAttributes {
    open spec fn obeys_from_spec() -> bool {
        true
    }

    open spec fn from_spec(args: UniformAttributeArgs) -> Self {
        attributes_from_args(args)
    }
}

/// Whether `text` reads as the literal `literal`.
pub fn is_text(text: &String, literal: &str) -> (r: bool)
    ensures
        r == (text@ == literal@),
{
    let owned: String = literal.to_owned();
    *text == owned
}

/// Calls darling's `<bool as FromMeta>::from_string`, which parses the text
/// with `str::parse::<bool>`. Not proved: that it gives `true` for the text
/// `true`, `false` for the text `false`, and fails on every other text. The
/// failure is handed on as `None`.
#[verifier::external_body]
fn bool_from_string(value: &str) -> (r: Option<bool>)
    ensures
        r == bool_of_text(value@),
{
    <bool as darling::FromMeta>::from_string(value).ok()
}

impl MetaItem {
    /// The name that the item carries, if it carries one.
    pub fn name(&self) -> (r: Option<&String>)
        ensures
            match r {
                Some(name) => item_name(self@) == Some(name@),
                None => item_name(self@) is None,
            },
    {
        match self {
            MetaItem::Word { name } => Some(name),
            MetaItem::Bool { name, .. } => Some(name),
            MetaItem::Str { name, .. } => Some(name),
            MetaItem::Other { name } => Some(name),
            MetaItem::Literal => None,
        }
    }

    /// The value that the item gives the flag it names.
    pub fn flag(&self) -> (r: Option<bool>)
        ensures
            r == item_flag(self@),
    {
        match self {
            MetaItem::Word { .. } => Some(true),
            MetaItem::Bool { value, .. } => Some(*value),
            MetaItem::Str { text, .. } => bool_from_string(text.as_str()),
            MetaItem::Other { .. } => None,
            MetaItem::Literal => None,
        }
    }
}

/// What the loop of `from_list` knows of the flag `key` after `n` items:
/// `current` is what the first of them that names `key` gives it.
pub open spec fn tracks(items: Seq<MetaItemView>, n: int, key: Seq<char>, current: Option<bool>) -> bool {
    match current {
        Some(value) => exists|j: int|
            0 <= j < n && #[trigger] is_first(items, names(key), j) && item_flag(items[j]) == Some(value),
        None => forall|j: int| 0 <= j < n ==> item_name(#[trigger] items[j]) != Some(key),
    }
}

/// The five names of flags are five different texts.
pub proof fn lemma_flag_names_differ()
    ensures
        "ignore"@ != "shader_def"@,
        "ignore"@ != "instance"@,
        "ignore"@ != "vertex"@,
        "ignore"@ != "buffer"@,
        "shader_def"@ != "instance"@,
        "shader_def"@ != "vertex"@,
        "shader_def"@ != "buffer"@,
        "instance"@ != "vertex"@,
        "instance"@ != "buffer"@,
        "vertex"@ != "buffer"@,
{
    reveal_strlit("ignore");
    reveal_strlit("shader_def");
    reveal_strlit("instance");
    reveal_strlit("vertex");
    reveal_strlit("buffer");
    assert("ignore"@.len() == 6 && "ignore"@[0] == 'i');
    assert("shader_def"@.len() == 10);
    assert("instance"@.len() == 8);
    assert("vertex"@.len() == 6 && "vertex"@[0] == 'v');
    assert("buffer"@.len() == 6 && "buffer"@[0] == 'b');
}

/// An item that does not name `key` leaves what is known of `key` as it was.
proof fn lemma_tracks_other(items: Seq<MetaItemView>, n: int, key: Seq<char>, current: Option<bool>)
    requires
        0 <= n < items.len(),
        tracks(items, n, key, current),
        item_name(items[n]) != Some(key),
    ensures
        tracks(items, n + 1, key, current),
{
    let p = names(key);
    match current {
        Some(value) => {
            let j = choose|j: int| 0 <= j < n && #[trigger] is_first(items, p, j) && item_flag(items[j]) == Some(value);
            assert(0 <= j < n + 1 && is_first(items, p, j) && item_flag(items[j]) == Some(value));
        },
        None => {},
    }
}

/// The first item that names `key` settles what is known of `key`.
proof fn lemma_tracks_set(items: Seq<MetaItemView>, n: int, key: Seq<char>)
    requires
        0 <= n < items.len(),
        tracks(items, n, key, None),
        item_name(items[n]) == Some(key),
    ensures
        tracks(items, n + 1, key, item_flag(items[n])) || item_flag(items[n]) is None,
{
    let p = names(key);
    assert(is_first(items, p, n));
}

/// A second item that names `key` puts the list out of order.
proof fn lemma_tracks_twice(items: Seq<MetaItemView>, n: int, key: Seq<char>, current: Option<bool>)
    requires
        0 <= n < items.len(),
        tracks(items, n, key, current),
        current is Some,
        item_name(items[n]) == Some(key),
    ensures
        !item_accepted(items, n),
{
    let p = names(key);
    let j = choose|j: int| 0 <= j < n && #[trigger] is_first(items, p, j) && item_flag(items[j]) == current;
    assert(item_name(items[j]) == item_name(items[n]));
}

/// After the last item, what is known of `key` is what the list gives it.
proof fn lemma_tracks_done(items: Seq<MetaItemView>, key: Seq<char>, current: Option<bool>)
    requires
        tracks(items, items.len() as int, key, current),
    ensures
        list_flag(items, key) == current,
{
    let p = names(key);
    match current {
        Some(value) => {
            let j = choose|j: int| 0 <= j < items.len() && #[trigger] is_first(items, p, j) && item_flag(items[j]) == Some(value);
            lemma_first_match_found(items, p, j);
        },
        None => {
            lemma_first_match_absent(items, p);
        },
    }
}

impl UniformAttributeArgs {
    /// Reads the items of an annotation's list. Each flag is what the one item
    /// that names it gives it, and unset where none does. The list is refused
    /// as a whole where an item names something that is no flag, names a flag
    /// a second time, or gives something that is no boolean.
    pub fn from_list(items: &Vec<MetaItem>) -> (r: Option<UniformAttributeArgs>)
        ensures
            r == args_of_list(items@.map_values(|item: MetaItem| item@)),
    {
        let ghost views = items@.map_values(|item: MetaItem| item@);
        let mut ignore: Option<bool> = None;
        let mut shader_def: Option<bool> = None;
        let mut instance: Option<bool> = None;
        let mut vertex: Option<bool> = None;
        let mut buffer: Option<bool> = None;
        proof {
            lemma_flag_names_differ();
        }
        let mut i: usize = 0;
        while i < items.len()
            invariant
                i <= items.len(),
                views == items@.map_values(|item: MetaItem| item@),
                forall|j: int| 0 <= j < i ==> #[trigger] item_accepted(views, j),
                tracks(views, i as int, "ignore"@, ignore),
                tracks(views, i as int, "shader_def"@, shader_def),
                tracks(views, i as int, "instance"@, instance),
                tracks(views, i as int, "vertex"@, vertex),
                tracks(views, i as int, "buffer"@, buffer),
            decreases items.len() - i,
        {
            let item = &items[i];
            assert(views[i as int] == item@);
            proof {
                lemma_flag_names_differ();
            }
            match item.name() {
                None => {
                    proof {
                        lemma_tracks_other(views, i as int, "ignore"@, ignore);
                        lemma_tracks_other(views, i as int, "shader_def"@, shader_def);
                        lemma_tracks_other(views, i as int, "instance"@, instance);
                        lemma_tracks_other(views, i as int, "vertex"@, vertex);
                        lemma_tracks_other(views, i as int, "buffer"@, buffer);
                    }
                },
                Some(name) => {
                    let flag = item.flag();
                    if is_text(name, "ignore") {
                        if ignore.is_some() || flag.is_none() {
                            proof {
                                if ignore is Some {
                                    lemma_tracks_twice(views, i as int, "ignore"@, ignore);
                                }
                                assert(!item_accepted(views, i as int));
                            }
                            return None;
                        }
                        proof {
                            lemma_tracks_set(views, i as int, "ignore"@);
                            lemma_tracks_other(views, i as int, "shader_def"@, shader_def);
                            lemma_tracks_other(views, i as int, "instance"@, instance);
                            lemma_tracks_other(views, i as int, "vertex"@, vertex);
                            lemma_tracks_other(views, i as int, "buffer"@, buffer);
                        }
                        ignore = flag;
                    } else if is_text(name, "shader_def") {
                        if shader_def.is_some() || flag.is_none() {
                            proof {
                                if shader_def is Some {
                                    lemma_tracks_twice(views, i as int, "shader_def"@, shader_def);
                                }
                                assert(!item_accepted(views, i as int));
                            }
                            return None;
                        }
                        proof {
                            lemma_tracks_other(views, i as int, "ignore"@, ignore);
                            lemma_tracks_set(views, i as int, "shader_def"@);
                            lemma_tracks_other(views, i as int, "instance"@, instance);
                            lemma_tracks_other(views, i as int, "vertex"@, vertex);
                            lemma_tracks_other(views, i as int, "buffer"@, buffer);
                        }
                        shader_def = flag;
                    } else if is_text(name, "instance") {
                        if instance.is_some() || flag.is_none() {
                            proof {
                                if instance is Some {
                                    lemma_tracks_twice(views, i as int, "instance"@, instance);
                                }
                                assert(!item_accepted(views, i as int));
                            }
                            return None;
                        }
                        proof {
                            lemma_tracks_other(views, i as int, "ignore"@, ignore);
                            lemma_tracks_other(views, i as int, "shader_def"@, shader_def);
                            lemma_tracks_set(views, i as int, "instance"@);
                            lemma_tracks_other(views, i as int, "vertex"@, vertex);
                            lemma_tracks_other(views, i as int, "buffer"@, buffer);
                        }
                        instance = flag;
                    } else if is_text(name, "vertex") {
                        if vertex.is_some() || flag.is_none() {
                            proof {
                                if vertex is Some {
                                    lemma_tracks_twice(views, i as int, "vertex"@, vertex);
                                }
                                assert(!item_accepted(views, i as int));
                            }
                            return None;
                        }
                        proof {
                            lemma_tracks_other(views, i as int, "ignore"@, ignore);
                            lemma_tracks_other(views, i as int, "shader_def"@, shader_def);
                            lemma_tracks_other(views, i as int, "instance"@, instance);
                            lemma_tracks_set(views, i as int, "vertex"@);
                            lemma_tracks_other(views, i as int, "buffer"@, buffer);
                        }
                        vertex = flag;
                    } else if is_text(name, "buffer") {
                        if buffer.is_some() || flag.is_none() {
                            proof {
                                if buffer is Some {
                                    lemma_tracks_twice(views, i as int, "buffer"@, buffer);
                                }
                                assert(!item_accepted(views, i as int));
                            }
                            return None;
                        }
                        proof {
                            lemma_tracks_other(views, i as int, "ignore"@, ignore);
                            lemma_tracks_other(views, i as int, "shader_def"@, shader_def);
                            lemma_tracks_other(views, i as int, "instance"@, instance);
                            lemma_tracks_other(views, i as int, "vertex"@, vertex);
                            lemma_tracks_set(views, i as int, "buffer"@);
                        }
                        buffer = flag;
                    } else {
                        assert(!item_accepted(views, i as int));
                        return None;
                    }
                    assert(item_accepted(views, i as int));
                },
            }
            i += 1;
        }
        proof {
            lemma_tracks_done(views, "ignore"@, ignore);
            lemma_tracks_done(views, "shader_def"@, shader_def);
            lemma_tracks_done(views, "instance"@, instance);
            lemma_tracks_done(views, "vertex"@, vertex);
            lemma_tracks_done(views, "buffer"@, buffer);
        }
        Some(UniformAttributeArgs { ignore, shader_def, instance, vertex, buffer })
    }
}

impl Attribute {
    /// The flags that this annotation sets, read strictly: nothing where it
    /// is not written as a list or its list is not in order.
    pub fn checked_attributes(&self) -> (r: Option<UniformAttributes>)
        ensures
            r == checked_attributes_of(self@),
    {
        match &self.args {
            Some(items) => match UniformAttributeArgs::from_list(items) {
                Some(args) => Some(UniformAttributes::from(args)),
                None => None,
            },
            None => None,
        }
    }

    /// The flags that this annotation sets, read leniently: those of its
    /// list where it is written as one and the list is in order, all unset
    /// otherwise.
    pub fn attributes(&self) -> (r: UniformAttributes)
        ensures
            r == attributes_of_annotation(self@),
    {
        match self.checked_attributes() {
            Some(attributes) => attributes,
            None => UniformAttributes::default(),
        }
    }
}

/// The annotation that counts among `attrs`: the first attribute named
/// `uniform`.
pub fn find_annotation(attrs: &Vec<Attribute>) -> (r: Option<&Attribute>)
    ensures
        match r {
            Some(attr) => first_match(attribute_views(attrs@), is_annotation()) matches Some(i)
                && attribute_views(attrs@)[i] == attr@,
            None => first_match(attribute_views(attrs@), is_annotation()) is None,
        },
{
    let ghost views = attribute_views(attrs@);
    let mut i: usize = 0;
    while i < attrs.len()
        invariant
            i <= attrs.len(),
            views == attribute_views(attrs@),
            forall|j: int| 0 <= j < i ==> !is_annotation()(#[trigger] views[j]),
        decreases attrs.len() - i,
    {
        assert(views[i as int] == attrs[i as int]@);
        if is_text(&attrs[i].name, "uniform") {
            proof {
                lemma_first_match_found(views, is_annotation(), i as int);
            }
            return Some(&attrs[i]);
        }
        i += 1;
    }
    proof {
        lemma_first_match_absent(views, is_annotation());
    }
    None
}

impl UniformAttributes {
    /// The flags of a field that carries the attributes `attrs`: those of the
    /// first attribute named `uniform`, all unset where there is none or
    /// where it is not in order.
    pub fn from_attributes(attrs: &Vec<Attribute>) -> (r: UniformAttributes)
        ensures
            r == attributes_of(attribute_views(attrs@)),
    {
        match find_annotation(attrs) {
            Some(attr) => attr.attributes(),
            None => UniformAttributes::default(),
        }
    }

    /// The flags of a field read strictly: as `from_attributes`, but nothing
    /// where the first attribute named `uniform` is not in order.
    pub fn try_from_attributes(attrs: &Vec<Attribute>) -> (r: Option<UniformAttributes>)
        ensures
            r == checked_attributes(attribute_views(attrs@)),
            r matches Some(attributes) ==> attributes == attributes_of(attribute_views(attrs@)),
    {
        match find_annotation(attrs) {
            Some(attr) => attr.checked_attributes(),
            None => Some(UniformAttributes::default()),
        }
    }
}

} // verus!

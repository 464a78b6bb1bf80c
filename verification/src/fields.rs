//! The fields of a request type, as the builder and the multipart form
//! of the type are written from them: how a field is classified by its
//! type and its attributes, and what each classification asks for.

use vstd::prelude::*;
use crate::methods::MultipartType;
use crate::naming::same_text;

verus! {

/// One argument of an attribute.
pub enum Meta {
    /// A bare name, as `skip` in `#[builder(skip)]`.
    Path(String),
    /// A name with a value, as in `#[builder(value = "audio")]`, with
    /// the text of the value where the value is a string literal.
    NameValue { name: String, text: Option<String> },
    /// A name with arguments of its own.
    List,
}

/// An attribute of a field: its name, and its arguments where they read
/// as a list of names, names with values and names with arguments.
pub struct Attribute {
    pub name: String,
    pub metas: Option<Vec<Meta>>,
}

/// The last generic argument of a type.
pub enum LastArgument {
    /// A type that is a path, with its name where the path is one bare
    /// name.
    Path(Option<String>),
    /// A type of another form.
    OtherType,
    /// No type: a lifetime, a constant, or no argument at all.
    NotAType,
}

/// The arguments of the last segment of a path.
pub enum Arguments {
    Absent,
    AngleBracketed(LastArgument),
    Parenthesized,
}

/// A type that is a path: the name of its last segment, and the
/// arguments of that segment.
pub struct TypePath {
    pub last: String,
    pub arguments: Arguments,
}

/// A field as written: its name if it has one, its type if the type is
/// a path, and its attributes in their order.
pub struct Field {
    pub ident: Option<String>,
    pub ty: Option<TypePath>,
    pub attrs: Vec<Attribute>,
}

/// Why the fields of a type cannot be classified.
pub enum FieldError {
    NoIdent,
    NotAPath,
    BadAttribute,
    UnsupportedMultipart,
    UnsupportedBuilder,
    MetaList,
    Parenthesized,
}

/// What the attributes of a field ask for.
pub struct Marks {
    pub build_value: Option<String>,
    pub build_skip: bool,
    pub multipart: Option<MultipartType>,
}

/// A field, classified. `index` is its place among the fields as
/// written.
pub struct TgField {
    pub index: usize,
    pub ident: String,
    pub is_str: bool,
    pub is_option: bool,
    pub has_inner_ty: bool,
    pub build_value: Option<String>,
    pub build_skip: bool,
    pub multipart: Option<MultipartType>,
    pub is_vec: bool,
}

/// The marks after one more argument of an attribute named `attr`.
pub open spec fn mark(attr: Seq<char>, meta: Meta, marks: Marks) -> Result<Marks, FieldError> {
    match meta {
        Meta::Path(name) => {
            if attr == "builder"@ && name@ == "skip"@ {
                Ok(Marks { build_skip: true, ..marks })
            } else if attr == "multipart"@ {
                if name@ == "normal"@ {
                    Ok(Marks { multipart: Some(MultipartType::Normal), ..marks })
                } else if name@ == "attach"@ {
                    Ok(Marks { multipart: Some(MultipartType::Attach), ..marks })
                } else {
                    Err(FieldError::UnsupportedMultipart)
                }
            } else {
                Ok(marks)
            }
        },
        Meta::NameValue { name, text } => {
            if attr == "builder"@ && name@ == "value"@ {
                match text {
                    Some(text) => Ok(Marks { build_value: Some(text), ..marks }),
                    None => Err(FieldError::UnsupportedBuilder),
                }
            } else {
                Ok(marks)
            }
        },
        Meta::List => Err(FieldError::MetaList),
    }
}

/// The marks after the arguments of an attribute named `attr`, read in
/// their order up to the first that is refused.
pub open spec fn mark_all(attr: Seq<char>, metas: Seq<Meta>, marks: Marks) -> Result<
    Marks,
    FieldError,
>
    decreases metas.len(),
{
    if metas.len() == 0 {
        Ok(marks)
    } else {
        match mark_all(attr, metas.drop_last(), marks) {
            Ok(marks) => mark(attr, metas.last(), marks),
            Err(error) => Err(error),
        }
    }
}

/// The marks after one more attribute. Documentation is passed over.
pub open spec fn read_attribute(attr: Attribute, marks: Marks) -> Result<Marks, FieldError> {
    if attr.name@ == "doc"@ {
        Ok(marks)
    } else {
        match attr.metas {
            None => Err(FieldError::BadAttribute),
            Some(metas) => mark_all(attr.name@, metas@, marks),
        }
    }
}

/// What the attributes ask for, read in their order up to the first
/// that is refused.
pub open spec fn read_attributes(attrs: Seq<Attribute>) -> Result<Marks, FieldError>
    decreases attrs.len(),
{
    if attrs.len() == 0 {
        Ok(Marks { build_value: None, build_skip: false, multipart: None })
    } else {
        match read_attributes(attrs.drop_last()) {
            Ok(marks) => read_attribute(attrs.last(), marks),
            Err(error) => Err(error),
        }
    }
}

/// The field at place `index`, classified; nothing where the last
/// generic argument of its type is no path, in which case the field is
/// left out.
pub open spec fn classify(index: usize, field: Field) -> Result<Option<TgField>, FieldError> {
    match (field.ident, field.ty) {
        (None, _) => Err(FieldError::NoIdent),
        (Some(_), None) => Err(FieldError::NotAPath),
        (Some(ident), Some(ty)) => match read_attributes(field.attrs@) {
            Err(error) => Err(error),
            Ok(marks) => {
                let is_option = ty.last@ == "Option"@;
                let is_vec = ty.last@ == "Vec"@;
                match ty.arguments {
                    Arguments::Absent => Ok(
                        Some(
                            TgField {
                                index,
                                ident,
                                is_str: ty.last@ == "String"@,
                                is_option,
                                has_inner_ty: false,
                                build_value: marks.build_value,
                                build_skip: marks.build_skip,
                                multipart: marks.multipart,
                                is_vec,
                            },
                        ),
                    ),
                    Arguments::AngleBracketed(LastArgument::Path(inner)) => Ok(
                        Some(
                            TgField {
                                index,
                                ident,
                                is_str: inner matches Some(name) && name@ == "String"@,
                                is_option,
                                has_inner_ty: true,
                                build_value: marks.build_value,
                                build_skip: marks.build_skip,
                                multipart: marks.multipart,
                                is_vec,
                            },
                        ),
                    ),
                    Arguments::AngleBracketed(_) => Ok(None),
                    Arguments::Parenthesized => Err(FieldError::Parenthesized),
                }
            },
        },
    }
}

/// The fields classified in their order, up to the first that is
/// refused.
pub open spec fn classify_all(fields: Seq<Field>) -> Result<Seq<TgField>, FieldError>
    decreases fields.len(),
{
    if fields.len() == 0 {
        Ok(Seq::empty())
    } else {
        match classify_all(fields.drop_last()) {
            Err(error) => Err(error),
            Ok(classified) => match classify((fields.len() - 1) as usize, fields.last()) {
                Err(error) => Err(error),
                Ok(None) => Ok(classified),
                Ok(Some(field)) => Ok(classified.push(field)),
            },
        }
    }
}

impl FieldError {
    /// What the error says.
    pub fn to_string(&self) -> (message: String)
        ensures
            message@ == match self {
                FieldError::NoIdent => "field ident not found"@,
                FieldError::NotAPath => "current only support path type"@,
                FieldError::BadAttribute => "unsupported attr"@,
                FieldError::UnsupportedMultipart => "unsupported multipart attr"@,
                FieldError::UnsupportedBuilder => "unsupported builder attr"@,
                FieldError::MetaList => "meta list unsupported"@,
                FieldError::Parenthesized => "unsupport parenthesized field type"@,
            },
    {
        match self {
            FieldError::NoIdent => "field ident not found".to_owned(),
            FieldError::NotAPath => "current only support path type".to_owned(),
            FieldError::BadAttribute => "unsupported attr".to_owned(),
            FieldError::UnsupportedMultipart => "unsupported multipart attr".to_owned(),
            FieldError::UnsupportedBuilder => "unsupported builder attr".to_owned(),
            FieldError::MetaList => "meta list unsupported".to_owned(),
            FieldError::Parenthesized => "unsupport parenthesized field type".to_owned(),
        }
    }
}

fn read_meta(attr: &str, meta: &Meta, marks: Marks) -> (read: Result<Marks, FieldError>)
    ensures
        read == mark(attr@, *meta, marks),
{
    match meta {
        Meta::Path(name) => {
            if same_text(attr, "builder") && same_text(name.as_str(), "skip") {
                Ok(Marks { build_skip: true, ..marks })
            } else if same_text(attr, "multipart") {
                if same_text(name.as_str(), "normal") {
                    Ok(Marks { multipart: Some(MultipartType::Normal), ..marks })
                } else if same_text(name.as_str(), "attach") {
                    Ok(Marks { multipart: Some(MultipartType::Attach), ..marks })
                } else {
                    Err(FieldError::UnsupportedMultipart)
                }
            } else {
                Ok(marks)
            }
        },
        Meta::NameValue { name, text } => {
            if same_text(attr, "builder") && same_text(name.as_str(), "value") {
                match text {
                    Some(text) => Ok(Marks { build_value: Some(text.clone()), ..marks }),
                    None => Err(FieldError::UnsupportedBuilder),
                }
            } else {
                Ok(marks)
            }
        },
        Meta::List => Err(FieldError::MetaList),
    }
}

fn read_attrs(attrs: &Vec<Attribute>) -> (read: Result<Marks, FieldError>)
    ensures
        read == read_attributes(attrs@),
{
    let mut marks = Marks { build_value: None, build_skip: false, multipart: None };
    let mut i: usize = 0;
    proof {
        assert(attrs@.take(0) =~= Seq::<Attribute>::empty());
    }
    while i < attrs.len()
        invariant
            i <= attrs@.len(),
            read_attributes(attrs@.take(i as int)) == Ok::<Marks, FieldError>(marks),
        decreases attrs@.len() - i,
    {
        let attr = &attrs[i];
        proof {
            assert(attrs@.take(i + 1).drop_last() =~= attrs@.take(i as int));
            assert(attrs@.take(i + 1).last() == attrs@[i as int]);
        }
        if !same_text(attr.name.as_str(), "doc") {
            match &attr.metas {
                None => {
                    proof {
                        lemma_refused_attribute(attrs@, i + 1);
                    }
                    return Err(FieldError::BadAttribute);
                },
                Some(metas) => {
                    let mut j: usize = 0;
                    let ghost before = marks;
                    proof {
                        assert(metas@.take(0) =~= Seq::<Meta>::empty());
                    }
                    while j < metas.len()
                        invariant
                            j <= metas@.len(),
                            i < attrs@.len(),
                            *attr == attrs@[i as int],
                            attr.metas == Some(*metas),
                            attr.name@ != "doc"@,
                            read_attributes(attrs@.take(i as int)) == Ok::<Marks, FieldError>(
                                before,
                            ),
                            mark_all(attr.name@, metas@.take(j as int), before) == Ok::<
                                Marks,
                                FieldError,
                            >(marks),
                        decreases metas@.len() - j,
                    {
                        proof {
                            assert(metas@.take(j + 1).drop_last() =~= metas@.take(j as int));
                            assert(metas@.take(j + 1).last() == metas@[j as int]);
                        }
                        match read_meta(attr.name.as_str(), &metas[j], marks) {
                            Ok(next) => {
                                marks = next;
                            },
                            Err(error) => {
                                proof {
                                    lemma_refused_meta(attr.name@, metas@, before, j + 1);
                                    let read = attrs@.take(i + 1);
                                    assert(read.drop_last() =~= attrs@.take(i as int));
                                    assert(read.last() == attrs@[i as int]);
                                    lemma_refused_attribute(attrs@, i + 1);
                                }
                                return Err(error);
                            },
                        }
                        j += 1;
                    }
                    proof {
                        assert(metas@.take(metas@.len() as int) =~= metas@);
                    }
                },
            }
        }
        i += 1;
    }
    proof {
        assert(attrs@.take(attrs@.len() as int) =~= attrs@);
    }
    Ok(marks)
}

/// Once an argument is refused, the arguments after it change nothing.
proof fn lemma_refused_meta(attr: Seq<char>, metas: Seq<Meta>, marks: Marks, n: int)
    requires
        0 <= n <= metas.len(),
        mark_all(attr, metas.take(n), marks) is Err,
    ensures
        mark_all(attr, metas, marks) == mark_all(attr, metas.take(n), marks),
    decreases metas.len() - n,
{
    if n < metas.len() {
        assert(metas.take(n + 1).drop_last() =~= metas.take(n));
        lemma_refused_meta(attr, metas, marks, n + 1);
    } else {
        assert(metas.take(n) =~= metas);
    }
}

/// Once an attribute is refused, the attributes after it change nothing.
proof fn lemma_refused_attribute(attrs: Seq<Attribute>, n: int)
    requires
        0 <= n <= attrs.len(),
        read_attributes(attrs.take(n)) is Err,
    ensures
        read_attributes(attrs) == read_attributes(attrs.take(n)),
    decreases attrs.len() - n,
{
    if n < attrs.len() {
        assert(attrs.take(n + 1).drop_last() =~= attrs.take(n));
        lemma_refused_attribute(attrs, n + 1);
    } else {
        assert(attrs.take(n) =~= attrs);
    }
}

/// Once a field is refused, the fields after it change nothing.
proof fn lemma_refused_field(fields: Seq<Field>, n: int)
    requires
        0 <= n <= fields.len(),
        classify_all(fields.take(n)) is Err,
    ensures
        classify_all(fields) == classify_all(fields.take(n)),
    decreases fields.len() - n,
{
    if n < fields.len() {
        assert(fields.take(n + 1).drop_last() =~= fields.take(n));
        lemma_refused_field(fields, n + 1);
    } else {
        assert(fields.take(n) =~= fields);
    }
}

fn classify_field(index: usize, field: &Field) -> (classified: Result<Option<TgField>, FieldError>)
    ensures
        classified == classify(index, *field),
{
    let ident = match &field.ident {
        None => {
            return Err(FieldError::NoIdent);
        },
        Some(ident) => ident.clone(),
    };
    let ty = match &field.ty {
        None => {
            return Err(FieldError::NotAPath);
        },
        Some(ty) => ty,
    };
    let marks = match read_attrs(&field.attrs) {
        Err(error) => {
            return Err(error);
        },
        Ok(marks) => marks,
    };
    let is_option = same_text(ty.last.as_str(), "Option");
    let is_vec = same_text(ty.last.as_str(), "Vec");
    match &ty.arguments {
        Arguments::Absent => Ok(
            Some(
                TgField {
                    index,
                    ident,
                    is_str: same_text(ty.last.as_str(), "String"),
                    is_option,
                    has_inner_ty: false,
                    build_value: marks.build_value,
                    build_skip: marks.build_skip,
                    multipart: marks.multipart,
                    is_vec,
                },
            ),
        ),
        Arguments::AngleBracketed(LastArgument::Path(inner)) => {
            let is_str = match inner {
                Some(name) => same_text(name.as_str(), "String"),
                None => false,
            };
            Ok(
                Some(
                    TgField {
                        index,
                        ident,
                        is_str,
                        is_option,
                        has_inner_ty: true,
                        build_value: marks.build_value,
                        build_skip: marks.build_skip,
                        multipart: marks.multipart,
                        is_vec,
                    },
                ),
            )
        },
        Arguments::AngleBracketed(_) => Ok(None),
        Arguments::Parenthesized => Err(FieldError::Parenthesized),
    }
}

/// Classifies the fields of a type, in their order. The first field
/// that cannot be classified decides the error.
pub fn get_fields(fields: &Vec<Field>) -> (classified: Result<Vec<TgField>, FieldError>)
    ensures
        match classify_all(fields@) {
            Ok(expected) => classified matches Ok(found) && found@ == expected,
            Err(error) => classified == Err::<Vec<TgField>, FieldError>(error),
        },
{
    let mut classified: Vec<TgField> = Vec::new();
    let mut i: usize = 0;
    proof {
        assert(fields@.take(0) =~= Seq::<Field>::empty());
    }
    while i < fields.len()
        invariant
            i <= fields@.len(),
            classify_all(fields@.take(i as int)) == Ok::<Seq<TgField>, FieldError>(classified@),
        decreases fields@.len() - i,
    {
        proof {
            assert(fields@.take(i + 1).drop_last() =~= fields@.take(i as int));
            assert(fields@.take(i + 1).last() == fields@[i as int]);
        }
        match classify_field(i, &fields[i]) {
            Err(error) => {
                proof {
                    lemma_refused_field(fields@, i + 1);
                }
                return Err(error);
            },
            Ok(None) => {},
            Ok(Some(field)) => {
                classified.push(field);
            },
        }
        i += 1;
    }
    proof {
        assert(fields@.take(fields@.len() as int) =~= fields@);
    }
    Ok(classified)
}

/// How a field enters the arguments of `new`.
#[derive(Debug, Clone, Copy, PartialEq, Eq, Structural)]
pub enum NewArgument {
    /// Not at all.
    Absent,
    /// As a `&str`.
    Text,
    /// As a value of the type of the field.
    Value,
}

/// What `new` fills a field with.
pub enum Initial {
    /// The text that the `value` of the `builder` attribute gives.
    Fixed(String),
    /// An owned copy of the text that `new` is handed.
    OwnedText,
    /// The value that `new` is handed.
    Given,
    /// Nothing yet.
    Empty,
}

/// How a field is set after `new`.
#[derive(Debug, Clone, Copy, PartialEq, Eq, Structural)]
pub enum Setter {
    /// Not at all.
    Absent,
    /// From a `&str`.
    Text,
    /// From a value of the inner type of the field.
    Value,
}

/// What a field gives to a multipart form.
#[derive(Debug, Clone, Copy, PartialEq, Eq, Structural)]
pub enum FormValue {
    /// Its JSON.
    Json,
    /// Itself, as text.
    Text,
    /// A file.
    File(MultipartType),
}

/// How a field goes into a multipart form: whether only when it is
/// there, whether under the bare name of the field, and what it gives.
#[derive(Debug, Clone, Copy, PartialEq, Eq, Structural)]
pub struct FormStep {
    pub optional: bool,
    pub bare: bool,
    pub value: FormValue,
}

impl TgField {
    /// How the field enters the arguments of `new`: not at all where it
    /// is optional or has a fixed value.
    pub fn new_argument(&self) -> (argument: NewArgument)
        ensures
            argument == if self.is_option || self.build_value is Some {
                NewArgument::Absent
            } else if self.is_str {
                NewArgument::Text
            } else {
                NewArgument::Value
            },
    {
        if self.is_option || self.build_value.is_some() {
            NewArgument::Absent
        } else if self.is_str {
            NewArgument::Text
        } else {
            NewArgument::Value
        }
    }

    /// What `new` fills the field with.
    pub fn initial(&self) -> (initial: Initial)
        ensures
            initial == if self.is_option {
                Initial::Empty
            } else if !self.is_str {
                Initial::Given
            } else {
                match self.build_value {
                    Some(value) => Initial::Fixed(value),
                    None => Initial::OwnedText,
                }
            },
    {
        if self.is_option {
            Initial::Empty
        } else if !self.is_str {
            Initial::Given
        } else {
            match &self.build_value {
                Some(value) => Initial::Fixed(value.clone()),
                None => Initial::OwnedText,
            }
        }
    }

    /// How the field is set after `new`: not at all unless it is
    /// optional, has an inner type and is not skipped.
    pub fn setter(&self) -> (setter: Setter)
        ensures
            setter == if !self.is_option || self.build_skip || !self.has_inner_ty {
                Setter::Absent
            } else if self.is_str {
                Setter::Text
            } else {
                Setter::Value
            },
    {
        if !self.is_option || self.build_skip || !self.has_inner_ty {
            Setter::Absent
        } else if self.is_str {
            Setter::Text
        } else {
            Setter::Value
        }
    }

    /// How the field goes into a multipart form.
    pub fn form_step(&self) -> (step: FormStep)
        ensures
            step == (FormStep {
                optional: self.is_option,
                bare: self.is_option || self.is_vec,
                value: if self.is_str {
                    FormValue::Text
                } else {
                    match self.multipart {
                        Some(how) => FormValue::File(how),
                        None => FormValue::Json,
                    }
                },
            }),
    {
        let value = if self.is_str {
            FormValue::Text
        } else {
            match self.multipart {
                Some(how) => FormValue::File(how),
                None => FormValue::Json,
            }
        };
        FormStep { optional: self.is_option, bare: self.is_option || self.is_vec, value }
    }

    /// Whether the field is one that decides if the request carries a
    /// file to upload, and if so, whether the field is optional.
    pub fn upload_test(&self) -> (test: Option<bool>)
        ensures
            test == match self.multipart {
                Some(_) => Some(self.is_option),
                None => None,
            },
    {
        match self.multipart {
            Some(_) => Some(self.is_option),
            None => None,
        }
    }
}

impl TypePath {
    /// Whether the type is an `Option` of some type.
    pub fn option_inner_type(&self) -> (optional: bool)
        ensures
            optional == (self.last@ == "Option"@ && (self.arguments matches
            Arguments::AngleBracketed(argument) && !(argument is NotAType))),
    {
        same_text(self.last.as_str(), "Option") && match &self.arguments {
            Arguments::AngleBracketed(LastArgument::NotAType) => false,
            Arguments::AngleBracketed(_) => true,
            _ => false,
        }
    }
}

/// Whether no field but the last is optional.
pub fn options_come_last(optional: &Vec<bool>) -> (last: bool)
    ensures
        last == forall|i: int| 0 <= i < optional@.len() - 1 ==> !optional@[i],
{
    let n = optional.len();
    if n == 0 {
        return true;
    }
    let mut i: usize = 0;
    while i < n - 1
        invariant
            n == optional@.len(),
            i <= n - 1,
            forall|j: int| 0 <= j < i ==> !optional@[j],
        decreases n - i,
    {
        if optional[i] {
            return false;
        }
        i += 1;
    }
    true
}

} // verus!

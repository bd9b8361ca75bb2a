use vstd::prelude::*;
use vstd::string::StringExecFns;

verus! {

/// The name of the token field where the author of a payload names none.
pub const DEFAULT_TOKEN_FIELD: &'static str = "csrf_token";

/// One generic parameter of a payload type, by its name.
#[derive(Debug, PartialEq, Eq)]
pub enum GenericParam {
    /// A lifetime; the name is written without its tick.
    Lifetime(String),
    /// A type parameter.
    Type(String),
    /// A const parameter.
    Const(String),
}

/// The type of a field of a payload type.
#[derive(Debug, PartialEq, Eq)]
pub enum FieldType {
    /// An owned string.
    OwnedString,
    /// A string borrowed for the lifetime of this name.
    BorrowedStr(String),
    /// Whatever the author of the payload wrote; it is never looked into.
    Declared(String),
}

/// A named field of a payload type.
#[derive(Debug, PartialEq, Eq)]
pub struct Field {
    pub name: String,
    pub ty: FieldType,
}

/// The fields of a payload type.
#[derive(Debug, PartialEq, Eq)]
pub enum Fields {
    /// The fields of a struct with braces, in their order.
    Named(Vec<Field>),
    /// The fields of a tuple struct. None of them has a name, so none can
    /// be the token field, and none can be added.
    Unnamed,
    /// A unit struct has no fields.
    Unit,
}

/// The shape of a payload type: what the transform reads of its declaration.
#[derive(Debug, PartialEq, Eq)]
pub struct ItemStruct {
    pub name: String,
    pub generics: Vec<GenericParam>,
    pub fields: Fields,
}

/// The field name that the author passed to the transform, if any.
#[derive(Debug, PartialEq, Eq)]
pub struct MaybeName {
    pub name: Option<String>,
}

/// Why the transform refused its arguments.
#[derive(Debug, PartialEq, Eq)]
pub enum FieldNameError {
    /// More than one field name was given.
    MultipleNames,
}

/// A payload type after the transform, and the field its token is read from.
#[derive(Debug, PartialEq, Eq)]
pub struct Expansion {
    /// The payload type; a token field was added to it unless it had one.
    pub item: ItemStruct,
    /// The field that the generated `csrf_token` accessor returns.
    pub token_field: String,
}

impl FieldNameError {
    /// The message shown to the author of the payload.
    pub fn message(&self) -> (text: &'static str)
        ensures
            text@ == "expected at most one field name for csrf token, got multiple!"@,
    {
        "expected at most one field name for csrf token, got multiple!"
    }
}

impl MaybeName {
    /// Reads the arguments of the transform: no name, or one.
    pub fn parse(mut names: Vec<String>) -> (parsed: Result<MaybeName, FieldNameError>)
        ensures
            names.len() == 0 ==> parsed == Ok::<MaybeName, FieldNameError>(MaybeName { name: None }),
            names.len() == 1 ==> parsed == Ok::<MaybeName, FieldNameError>(
                MaybeName { name: Some(names[0]) },
            ),
            names.len() > 1 ==> parsed == Err::<MaybeName, FieldNameError>(
                FieldNameError::MultipleNames,
            ),
    {
        if names.len() > 1 {
            Err(FieldNameError::MultipleNames)
        } else {
            Ok(MaybeName { name: names.pop() })
        }
    }
}

/// The names of the lifetime parameters among `generics`, in their order.
pub open spec fn lifetime_names(generics: Seq<GenericParam>) -> Seq<Seq<char>>
    decreases generics.len(),
{
    if generics.len() == 0 {
        Seq::empty()
    } else {
        let before = lifetime_names(generics.drop_last());
        match generics.last() {
            GenericParam::Lifetime(name) => before.push(name@),
            _ => before,
        }
    }
}

/// The one lifetime of a payload type, where it has exactly one.
pub open spec fn singular_lifetime(generics: Seq<GenericParam>) -> Option<Seq<char>> {
    let names = lifetime_names(generics);
    if names.len() == 1 {
        Some(names[0])
    } else {
        None
    }
}

/// Whether a field called `name` is among `fields`.
pub open spec fn declares(fields: Seq<Field>, name: Seq<char>) -> bool {
    exists|i: int| 0 <= i < fields.len() && (#[trigger] fields[i]).name@ == name
}

/// Whether `ty` is the type of an injected token field of a payload type
/// with these generics: borrowed for the one lifetime there is, else owned.
pub open spec fn is_token_type(ty: FieldType, generics: Seq<GenericParam>) -> bool {
    match singular_lifetime(generics) {
        Some(lifetime) => ty matches FieldType::BorrowedStr(name) && name@ == lifetime,
        None => ty is OwnedString,
    }
}

/// The one lifetime parameter of `item`, if it has exactly one.
pub fn get_singular_lifetime(item: &ItemStruct) -> (lifetime: Option<String>)
    ensures
        match singular_lifetime(item.generics@) {
            Some(name) => lifetime matches Some(found) && found@ == name,
            None => lifetime is None,
        },
{
    let mut first: Option<&String> = None;
    let mut several = false;
    let mut i: usize = 0;
    while i < item.generics.len()
        invariant
            i <= item.generics.len(),
            match first {
                Some(name) => lifetime_names(item.generics@.take(i as int)).len() >= 1
                    && lifetime_names(item.generics@.take(i as int))[0] == name@,
                None => lifetime_names(item.generics@.take(i as int)).len() == 0,
            },
            several == (lifetime_names(item.generics@.take(i as int)).len() > 1),
        decreases item.generics.len() - i,
    {
        assert(item.generics@.take(i + 1).drop_last() == item.generics@.take(i as int));
        match &item.generics[i] {
            GenericParam::Lifetime(name) => {
                if first.is_some() {
                    several = true;
                } else {
                    first = Some(name);
                }
            },
            _ => {},
        }
        i += 1;
    }
    assert(item.generics@.take(i as int) == item.generics@);
    match first {
        Some(name) if !several => Some(name.clone()),
        _ => None,
    }
}

/// Whether `fields` holds a field called `name`.
fn has_field(fields: &Vec<Field>, name: &String) -> (found: bool)
    ensures
        found == declares(fields@, name@),
{
    let mut i: usize = 0;
    while i < fields.len()
        invariant
            i <= fields.len(),
            forall|j: int| 0 <= j < i ==> (#[trigger] fields[j]).name@ != name@,
        decreases fields.len() - i,
    {
        if fields[i].name == *name {
            return true;
        }
        i += 1;
    }
    false
}

/// Gives a payload type its token field and names the field that its
/// accessor reads.
///
/// The field is the one named in `args`, or `csrf_token`. A payload with
/// named fields that lacks this field gets it as its last field, borrowed
/// where the payload has exactly one lifetime and owned otherwise. Nothing
/// else of the payload changes.
pub fn with_csrf_token(args: Vec<String>, item: ItemStruct) -> (expanded: Result<
    Expansion,
    FieldNameError,
>)
    ensures
        args.len() > 1 ==> expanded == Err::<Expansion, FieldNameError>(
            FieldNameError::MultipleNames,
        ),
        args.len() <= 1 ==> {
            let field_name = if args.len() == 1 {
                args[0]@
            } else {
                DEFAULT_TOKEN_FIELD@
            };
            &&& expanded matches Ok(expansion)
            &&& expansion.token_field@ == field_name
            &&& expansion.item.name == item.name
            &&& expansion.item.generics == item.generics
            &&& match item.fields {
                Fields::Named(fields) => if declares(fields@, field_name) {
                    expansion.item.fields == item.fields
                } else {
                    &&& expansion.item.fields matches Fields::Named(extended)
                    &&& extended@.len() == fields@.len() + 1
                    &&& extended@.drop_last() == fields@
                    &&& extended@.last().name@ == field_name
                    &&& is_token_type(extended@.last().ty, item.generics@)
                },
                _ => expansion.item.fields == item.fields,
            }
        },
{
    let maybe_name = match MaybeName::parse(args) {
        Ok(parsed) => parsed,
        Err(refused) => {
            return Err(refused);
        },
    };
    let field_name = match maybe_name.name {
        Some(name) => name,
        None => String::from_str(DEFAULT_TOKEN_FIELD),
    };
    let lifetime = get_singular_lifetime(&item);
    let ItemStruct { name, generics, fields } = item;
    let fields = match fields {
        Fields::Named(mut named) => {
            if !has_field(&named, &field_name) {
                let ty = match lifetime {
                    Some(lifetime) => FieldType::BorrowedStr(lifetime),
                    None => FieldType::OwnedString,
                };
                let ghost before = named@;
                named.push(Field { name: field_name.clone(), ty });
                assert(named@.drop_last() == before);
            }
            Fields::Named(named)
        },
        other => other,
    };
    Ok(Expansion { item: ItemStruct { name, generics, fields }, token_field: field_name })
}

} // verus!

//! The shape of what the graph database hands back: a row maps column names to
//! nodes or relations, and each node or relation carries named properties.
//! The typed reads below are those a decoder performs on such a row.

use vstd::prelude::*;

verus! {

/// Why a typed read of a row, a node or a relation failed.
#[derive(Clone, Copy, Debug, PartialEq, Eq, Structural)]
pub enum DecodeError {
    /// The column or property is absent.
    NoSuchProperty,
    /// The column or property holds a value of another kind.
    InvalidType,
}

/// A property value, by what it can be read as.
#[derive(Clone, Debug)]
pub enum PropertyValue {
    /// A value that reads as a string (strings, and temporal values in their text form).
    Text(String),
    /// A list whose elements all read as strings.
    TextList(Vec<String>),
    /// A boolean.
    Boolean(bool),
    /// Anything else (numbers, maps, nulls, mixed lists, ...).
    Other,
}

/// One named property.
#[derive(Clone, Debug)]
pub struct Property {
    pub key: String,
    pub value: PropertyValue,
}

/// A node of the graph and its properties.
#[derive(Clone, Debug)]
pub struct Node {
    pub properties: Vec<Property>,
}

/// A relation of the graph: its type and its properties.
#[derive(Clone, Debug)]
pub struct Relation {
    pub typ: String,
    pub properties: Vec<Property>,
}

/// What a column of a row holds.
#[derive(Clone, Debug)]
pub enum Column {
    Node(Node),
    Relation(Relation),
    Other,
}

/// One named column of a row.
#[derive(Clone, Debug)]
pub struct Field {
    pub name: String,
    pub column: Column,
}

/// A row of a query result.
#[derive(Clone, Debug)]
pub struct Row {
    pub fields: Vec<Field>,
}

/// The abstract form of a property value.
pub enum ValueView {
    Text(Seq<char>),
    TextList(Seq<Seq<char>>),
    Boolean(bool),
    Other,
}

impl View for PropertyValue {
    type V = ValueView;

    open spec fn view(&self) -> ValueView {
        match self {
            PropertyValue::Text(s) => ValueView::Text(s@),
            PropertyValue::TextList(v) => ValueView::TextList(v.deep_view()),
            PropertyValue::Boolean(b) => ValueView::Boolean(*b),
            PropertyValue::Other => ValueView::Other,
        }
    }
}

/// The value of the first property named `key`.
pub open spec fn property_of(props: Seq<Property>, key: Seq<char>) -> Option<PropertyValue>
    decreases props.len(),
{
    if props.len() == 0 {
        None
    } else if props[0].key@ == key {
        Some(props[0].value)
    } else {
        property_of(props.drop_first(), key)
    }
}

/// The column of the first field named `name`.
pub open spec fn column_of(fields: Seq<Field>, name: Seq<char>) -> Option<Column>
    decreases fields.len(),
{
    if fields.len() == 0 {
        None
    } else if fields[0].name@ == name {
        Some(fields[0].column)
    } else {
        column_of(fields.drop_first(), name)
    }
}

/// Reading property `key` as a string.
pub open spec fn text_at(props: Seq<Property>, key: Seq<char>) -> Result<Seq<char>, DecodeError> {
    match property_of(props, key) {
        None => Err(DecodeError::NoSuchProperty),
        Some(PropertyValue::Text(s)) => Ok(s@),
        Some(_) => Err(DecodeError::InvalidType),
    }
}

/// Reading property `key` as a list of strings.
pub open spec fn texts_at(props: Seq<Property>, key: Seq<char>) -> Result<
    Seq<Seq<char>>,
    DecodeError,
> {
    match property_of(props, key) {
        None => Err(DecodeError::NoSuchProperty),
        Some(PropertyValue::TextList(v)) => Ok(v.deep_view()),
        Some(_) => Err(DecodeError::InvalidType),
    }
}

/// Reading property `key` as a boolean.
pub open spec fn flag_at(props: Seq<Property>, key: Seq<char>) -> Result<bool, DecodeError> {
    match property_of(props, key) {
        None => Err(DecodeError::NoSuchProperty),
        Some(PropertyValue::Boolean(b)) => Ok(b),
        Some(_) => Err(DecodeError::InvalidType),
    }
}

/// Reading column `alias` of a row as a node.
pub open spec fn node_at(row: Row, alias: Seq<char>) -> Result<Node, DecodeError> {
    match column_of(row.fields@, alias) {
        None => Err(DecodeError::NoSuchProperty),
        Some(Column::Node(n)) => Ok(n),
        Some(_) => Err(DecodeError::InvalidType),
    }
}

/// Reading column `alias` of a row as a relation.
pub open spec fn relation_at(row: Row, alias: Seq<char>) -> Result<Relation, DecodeError> {
    match column_of(row.fields@, alias) {
        None => Err(DecodeError::NoSuchProperty),
        Some(Column::Relation(r)) => Ok(r),
        Some(_) => Err(DecodeError::InvalidType),
    }
}

/// The failure of a read, if it failed.
pub open spec fn failure<T>(r: Result<T, DecodeError>) -> Option<DecodeError> {
    match r {
        Ok(_) => None,
        Err(e) => Some(e),
    }
}

/// The first of two failures.
pub open spec fn first_failure(a: Option<DecodeError>, b: Option<DecodeError>) -> Option<
    DecodeError,
> {
    if a is Some {
        a
    } else {
        b
    }
}

/// A string read, by its view.
pub open spec fn text_result(r: Result<String, DecodeError>) -> Result<Seq<char>, DecodeError> {
    match r {
        Ok(s) => Ok(s@),
        Err(e) => Err(e),
    }
}

/// A list read, by its view.
pub open spec fn texts_result(r: Result<Vec<String>, DecodeError>) -> Result<
    Seq<Seq<char>>,
    DecodeError,
> {
    match r {
        Ok(v) => Ok(v.deep_view()),
        Err(e) => Err(e),
    }
}

/// Finds the first property named `key`.
pub fn find_property<'a>(props: &'a Vec<Property>, key: &str) -> (r: Option<&'a PropertyValue>)
    ensures
        match r {
            Some(v) => property_of(props@, key@) == Some(*v),
            None => property_of(props@, key@) is None,
        },
{
    let wanted = key.to_owned();
    let mut i: usize = 0;
    assert(props@.skip(0) =~= props@);
    while i < props.len()
        invariant
            0 <= i <= props.len(),
            wanted@ == key@,
            property_of(props@, key@) == property_of(props@.skip(i as int), key@),
        decreases props.len() - i,
    {
        if props[i].key == wanted {
            return Some(&props[i].value);
        }
        assert(props@.skip(i as int).drop_first() =~= props@.skip(i + 1));
        i += 1;
    }
    None
}

/// Finds the first column named `name`.
pub fn find_column<'a>(row: &'a Row, name: &str) -> (r: Option<&'a Column>)
    ensures
        match r {
            Some(c) => column_of(row.fields@, name@) == Some(*c),
            None => column_of(row.fields@, name@) is None,
        },
{
    let wanted = name.to_owned();
    let mut i: usize = 0;
    assert(row.fields@.skip(0) =~= row.fields@);
    while i < row.fields.len()
        invariant
            0 <= i <= row.fields.len(),
            wanted@ == name@,
            column_of(row.fields@, name@) == column_of(row.fields@.skip(i as int), name@),
        decreases row.fields.len() - i,
    {
        if row.fields[i].name == wanted {
            return Some(&row.fields[i].column);
        }
        assert(row.fields@.skip(i as int).drop_first() =~= row.fields@.skip(i + 1));
        i += 1;
    }
    None
}

/// Copies a list of strings.
pub fn copy_texts(v: &Vec<String>) -> (r: Vec<String>)
    ensures
        r.deep_view() == v.deep_view(),
{
    let mut r: Vec<String> = Vec::new();
    let mut i: usize = 0;
    while i < v.len()
        invariant
            0 <= i <= v.len(),
            r.deep_view() =~= v.deep_view().take(i as int),
        decreases v.len() - i,
    {
        let s = v[i].clone();
        let ghost before = r.deep_view();
        r.push(s);
        assert(r.deep_view() =~= before.push(v.deep_view()[i as int]));
        assert(v.deep_view().take(i + 1) =~= v.deep_view().take(i as int).push(
            v.deep_view()[i as int],
        ));
        i += 1;
    }
    assert(v.deep_view().take(v.len() as int) =~= v.deep_view());
    r
}

/// Reads property `key` as a string.
pub fn read_text(props: &Vec<Property>, key: &str) -> (r: Result<String, DecodeError>)
    ensures
        text_result(r) == text_at(props@, key@),
{
    match find_property(props, key) {
        None => Err(DecodeError::NoSuchProperty),
        Some(PropertyValue::Text(s)) => Ok(s.clone()),
        Some(_) => Err(DecodeError::InvalidType),
    }
}

/// Reads property `key` as a string, if it is one.
pub fn read_optional_text(props: &Vec<Property>, key: &str) -> (r: Option<String>)
    ensures
        match text_at(props@, key@) {
            Ok(s) => r matches Some(t) && t@ == s,
            Err(_) => r is None,
        },
{
    match read_text(props, key) {
        Ok(s) => Some(s),
        Err(_) => None,
    }
}

/// Reads property `key` as a list of strings.
pub fn read_texts(props: &Vec<Property>, key: &str) -> (r: Result<Vec<String>, DecodeError>)
    ensures
        texts_result(r) == texts_at(props@, key@),
{
    match find_property(props, key) {
        None => Err(DecodeError::NoSuchProperty),
        Some(PropertyValue::TextList(v)) => Ok(copy_texts(v)),
        Some(_) => Err(DecodeError::InvalidType),
    }
}

/// Reads property `key` as a boolean.
pub fn read_flag(props: &Vec<Property>, key: &str) -> (r: Result<bool, DecodeError>)
    ensures
        r == flag_at(props@, key@),
{
    match find_property(props, key) {
        None => Err(DecodeError::NoSuchProperty),
        Some(PropertyValue::Boolean(b)) => Ok(*b),
        Some(_) => Err(DecodeError::InvalidType),
    }
}

/// Reads column `alias` of a row as a node.
pub fn read_node<'a>(row: &'a Row, alias: &str) -> (r: Result<&'a Node, DecodeError>)
    ensures
        match r {
            Ok(n) => node_at(*row, alias@) == Ok::<Node, DecodeError>(*n),
            Err(e) => node_at(*row, alias@) == Err::<Node, DecodeError>(e),
        },
{
    match find_column(row, alias) {
        None => Err(DecodeError::NoSuchProperty),
        Some(Column::Node(n)) => Ok(n),
        Some(_) => Err(DecodeError::InvalidType),
    }
}

/// Reads column `alias` of a row as a relation.
pub fn read_relation<'a>(row: &'a Row, alias: &str) -> (r: Result<&'a Relation, DecodeError>)
    ensures
        match r {
            Ok(x) => relation_at(*row, alias@) == Ok::<Relation, DecodeError>(*x),
            Err(e) => relation_at(*row, alias@) == Err::<Relation, DecodeError>(e),
        },
{
    match find_column(row, alias) {
        None => Err(DecodeError::NoSuchProperty),
        Some(Column::Relation(x)) => Ok(x),
        Some(_) => Err(DecodeError::InvalidType),
    }
}

} // verus!

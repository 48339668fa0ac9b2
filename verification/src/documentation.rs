//! The response shapes that the library announces to a generator of API
//! documentation.
use vstd::prelude::*;

verus! {

/// Type of a field in a documented payload.
#[derive(Clone, Copy, Debug, PartialEq, Eq, Structural)]
pub enum HttpFieldType {
    /// A result status, written as its wire code.
    ResultStatus,
    /// A string.
    Text,
}

/// One field of a documented payload.
#[derive(Debug)]
pub struct HttpField {
    pub name: String,
    pub data_type: HttpFieldType,
    pub required: bool,
}

/// A field as plain values.
pub ghost struct Field {
    pub name: Seq<char>,
    pub data_type: HttpFieldType,
    pub required: bool,
}

impl View for HttpField {
    type V = Field;

    open spec fn view(&self) -> Field {
        Field { name: self.name@, data_type: self.data_type, required: self.required }
    }
}

/// The schema of a payload: the name of the structure and its fields.
#[derive(Debug)]
pub struct HttpObjectStructure {
    pub struct_id: String,
    pub fields: Vec<HttpField>,
}

/// A schema as plain values.
pub ghost struct Schema {
    pub struct_id: Seq<char>,
    pub fields: Seq<Field>,
}

impl View for HttpObjectStructure {
    type V = Schema;

    open spec fn view(&self) -> Schema {
        Schema {
            struct_id: self.struct_id@,
            fields: self.fields@.map_values(|field: HttpField| field@),
        }
    }
}

/// A response that a route may give: transport code, schema of the payload
/// and a description for the reader.
#[derive(Debug)]
pub struct HttpResult {
    pub http_code: u16,
    pub nullable: bool,
    pub description: String,
    pub data_type: HttpObjectStructure,
}

/// A documented response as plain values.
pub ghost struct DocumentedResult {
    pub http_code: int,
    pub nullable: bool,
    pub description: Seq<char>,
    pub data_type: Schema,
}

impl View for HttpResult {
    type V = DocumentedResult;

    open spec fn view(&self) -> DocumentedResult {
        DocumentedResult {
            http_code: self.http_code as int,
            nullable: self.nullable,
            description: self.description@,
            data_type: self.data_type@,
        }
    }
}

/// The documented responses of a list, each as plain values.
pub open spec fn documented(list: Seq<HttpResult>) -> Seq<DocumentedResult> {
    list.map_values(|result: HttpResult| result@)
}

/// The schema of an object with the two required fields given.
pub open spec fn schema2(
    struct_id: Seq<char>,
    name1: Seq<char>,
    type1: HttpFieldType,
    name2: Seq<char>,
    type2: HttpFieldType,
) -> Schema {
    Schema {
        struct_id,
        fields: seq![
            Field { name: name1, data_type: type1, required: true },
            Field { name: name2, data_type: type2, required: true },
        ],
    }
}

/// The schema of an object with the one required field given.
pub open spec fn schema1(struct_id: Seq<char>, name: Seq<char>, data_type: HttpFieldType) -> Schema {
    Schema { struct_id, fields: seq![Field { name, data_type, required: true }] }
}

impl HttpObjectStructure {
    /// The schema of an object with one required field.
    pub fn with_field(struct_id: &str, name: &str, data_type: HttpFieldType) -> (schema: Self)
        ensures
            schema@ == schema1(struct_id@, name@, data_type),
    {
        let mut fields: Vec<HttpField> = Vec::new();
        fields.push(HttpField { name: name.to_owned(), data_type, required: true });
        let schema = HttpObjectStructure { struct_id: struct_id.to_owned(), fields };
        assert(schema@.fields == schema1(struct_id@, name@, data_type).fields);
        schema
    }

    /// The schema of an object with two required fields.
    pub fn with_fields(
        struct_id: &str,
        name1: &str,
        type1: HttpFieldType,
        name2: &str,
        type2: HttpFieldType,
    ) -> (schema: Self)
        ensures
            schema@ == schema2(struct_id@, name1@, type1, name2@, type2),
    {
        let mut fields: Vec<HttpField> = Vec::new();
        fields.push(HttpField { name: name1.to_owned(), data_type: type1, required: true });
        fields.push(HttpField { name: name2.to_owned(), data_type: type2, required: true });
        let schema = HttpObjectStructure { struct_id: struct_id.to_owned(), fields };
        assert(schema@.fields == schema2(struct_id@, name1@, type1, name2@, type2).fields);
        schema
    }
}

} // verus!

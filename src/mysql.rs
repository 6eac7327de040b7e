//! Result metadata of the MySQL-like backend's prepared statements.
use vstd::prelude::*;

verus! {

/// One result field: its name, if it has one, its type code and flags.
pub struct MysqlFieldMetadata {
    name: Option<String>,
    type_code: u32,
    flags: u32,
}

impl MysqlFieldMetadata {
    pub closed spec fn name_spec(&self) -> Option<Seq<char>> {
        match self.name {
            Some(n) => Some(n@),
            None => None,
        }
    }

    pub closed spec fn type_spec(&self) -> u32 {
        self.type_code
    }

    pub closed spec fn flags_spec(&self) -> u32 {
        self.flags
    }

    pub fn new(name: Option<String>, type_code: u32, flags: u32) -> (r: Self)
        ensures
            r.name_spec() == (match name {
                Some(n) => Some(n@),
                None => None,
            }),
            r.type_spec() == type_code,
            r.flags_spec() == flags,
    {
        MysqlFieldMetadata { name, type_code, flags }
    }

    pub fn field_name(&self) -> (r: Option<&str>)
        ensures
            match self.name_spec() {
                Some(n) => r matches Some(s) && s@ == n,
                None => r is None,
            },
    {
        match &self.name {
            Some(n) => Some(n.as_str()),
            None => None,
        }
    }

    pub fn field_type(&self) -> (r: u32)
        ensures
            r == self.type_spec(),
    {
        self.type_code
    }

    pub fn flags(&self) -> (r: u32)
        ensures
            r == self.flags_spec(),
    {
        self.flags
    }
}

/// The fields of a statement's result.
pub struct StatementMetadata {
    result: Vec<MysqlFieldMetadata>,
}

impl StatementMetadata {
    pub closed spec fn fields_spec(&self) -> Seq<MysqlFieldMetadata> {
        self.result@
    }

    pub fn new(result: Vec<MysqlFieldMetadata>) -> (r: Self)
        ensures
            r.fields_spec() == result@,
    {
        StatementMetadata { result }
    }

    pub fn fields(&self) -> (r: &[MysqlFieldMetadata])
        ensures
            r@ == self.fields_spec(),
    {
        self.result.as_slice()
    }
}

} // verus!

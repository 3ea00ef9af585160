//! Table schema: an ordered, named list of columns, each carrying a value
//! type, a semantic role, a nullable flag and optional extended type
//! parameters. A schema is built once through a fluent accumulator and then
//! treated as read-only configuration shared by every row produced against
//! it.
//!
//! By design the accumulator performs no validation beyond field-level
//! defaults: duplicate column names or a missing timestamp column are not
//! rejected here but left to the remote store.

use vstd::prelude::*;

verus! {

/// The value type a column is declared with. The cases mirror the cases of
/// [`crate::value::Value`], without the explicit null case: nullability is
/// a flag on the column.
#[derive(Debug, Clone, Copy, PartialEq, Eq, Structural)]
pub enum ColumnDataType {
    Boolean,
    Int8,
    Int16,
    Int32,
    Int64,
    Uint8,
    Uint16,
    Uint32,
    Uint64,
    Float32,
    Float64,
    Binary,
    String,
    Date,
    Datetime,
    TimestampSecond,
    TimestampMillisecond,
    TimestampMicrosecond,
    TimestampNanosecond,
    TimeSecond,
    TimeMillisecond,
    TimeMicrosecond,
    TimeNanosecond,
    Decimal128,
    Json,
}

/// The semantic role of a column in a time-series table: a grouping key, the
/// time index, or a measurement.
#[derive(Debug, Clone, Copy, PartialEq, Eq, Structural)]
pub enum SemanticType {
    Tag,
    Timestamp,
    Field,
}

/// Extended type information for columns that need additional parameters.
#[derive(Debug, Clone, Copy, PartialEq, Eq, Structural)]
pub enum DataTypeExtension {
    /// Decimal128 with a specific precision and scale.
    Decimal128 { precision: u8, scale: i8 },
}

/// A table column definition.
#[derive(Debug)]
pub struct Column {
    pub name: String,
    pub data_type: ColumnDataType,
    pub semantic_type: SemanticType,
    /// Extended type information for data types that need additional
    /// parameters.
    pub data_type_extension: Option<DataTypeExtension>,
    pub nullable: bool,
}

/// The mathematical model of a [`Column`].
pub struct ColumnModel {
    pub name: Seq<char>,
    pub data_type: ColumnDataType,
    pub semantic_type: SemanticType,
    pub data_type_extension: Option<DataTypeExtension>,
    pub nullable: bool,
}

impl View for Column {
    type V = ColumnModel;

    open spec fn view(&self) -> ColumnModel {
        ColumnModel {
            name: self.name@,
            data_type: self.data_type,
            semantic_type: self.semantic_type,
            data_type_extension: self.data_type_extension,
            nullable: self.nullable,
        }
    }
}

impl DeepView for Column {
    type V = ColumnModel;

    open spec fn deep_view(&self) -> ColumnModel {
        self.view()
    }
}

impl Clone for Column {
    /// A column definition with equal fields.
    fn clone(&self) -> (r: Self)
        ensures
            r@ == self@,
    {
        Column {
            name: self.name.clone(),
            data_type: self.data_type,
            semantic_type: self.semantic_type,
            data_type_extension: self.data_type_extension,
            nullable: self.nullable,
        }
    }
}

/// The mathematical model of a [`TableSchema`]: its name and the models of
/// its columns, in order.
pub struct SchemaModel {
    pub name: Seq<char>,
    pub columns: Seq<ColumnModel>,
}

/// A time-series table: a name and an ordered column list.
#[derive(Debug)]
pub struct TableSchema {
    name: String,
    columns: Vec<Column>,
}

impl View for TableSchema {
    type V = SchemaModel;

    closed spec fn view(&self) -> SchemaModel {
        SchemaModel { name: self.name@, columns: self.columns.deep_view() }
    }
}

impl Clone for TableSchema {
    /// A schema with an equal name and an equal column list.
    fn clone(&self) -> (r: Self)
        ensures
            r@ == self@,
    {
        let mut columns: Vec<Column> = Vec::with_capacity(self.columns.len());
        let mut i: usize = 0;
        while i < self.columns.len()
            invariant
                i <= self.columns@.len(),
                columns.deep_view() =~= self@.columns.subrange(0, i as int),
            decreases self.columns@.len() - i,
        {
            let c = self.columns[i].clone();
            let ghost cv = c@;
            let ghost prev = columns.deep_view();
            columns.push(c);
            proof {
                assert(columns.deep_view() =~= prev.push(cv));
                assert(self@.columns.subrange(0, i + 1 as int) =~= prev.push(cv));
            }
            i = i + 1;
        }
        let r = TableSchema { name: self.name.clone(), columns };
        proof {
            assert(r@.columns =~= self@.columns);
        }
        r
    }
}

impl TableSchema {
    /// A fresh, empty schema accumulator.
    pub fn builder() -> (b: TableSchemaBuilder)
        ensures
            b@.name is None,
            b@.columns == Seq::<ColumnModel>::empty(),
    {
        TableSchemaBuilder::default()
    }

    /// The table name.
    pub fn name(&self) -> (r: &str)
        ensures
            r@ == self@.name,
    {
        self.name.as_str()
    }

    /// The table columns, in declaration order.
    pub fn columns(&self) -> (r: &[Column])
        ensures
            r.deep_view() == self@.columns,
    {
        let r = self.columns.as_slice();
        proof {
            assert(r.deep_view() =~= self@.columns);
        }
        r
    }

    /// The schema extended by one tag column, for indexing and grouping.
    pub fn add_tag(self, name: String, data_type: ColumnDataType, nullable: bool) -> (r: Self)
        ensures
            r@.name == self@.name,
            r@.columns == self@.columns.push(
                (ColumnModel {
                    name: name@,
                    data_type,
                    semantic_type: SemanticType::Tag,
                    data_type_extension: None,
                    nullable,
                }),
            ),
    {
        self.push_column(Column {
            name,
            data_type,
            semantic_type: SemanticType::Tag,
            data_type_extension: None,
            nullable,
        })
    }

    /// The schema extended by one timestamp column, the timeline of the
    /// series. A timestamp column is always required to be non-null.
    pub fn add_timestamp(self, name: String, data_type: ColumnDataType) -> (r: Self)
        ensures
            r@.name == self@.name,
            r@.columns == self@.columns.push(
                (ColumnModel {
                    name: name@,
                    data_type,
                    semantic_type: SemanticType::Timestamp,
                    data_type_extension: None,
                    nullable: false,
                }),
            ),
    {
        self.push_column(Column {
            name,
            data_type,
            semantic_type: SemanticType::Timestamp,
            data_type_extension: None,
            nullable: false,
        })
    }

    /// The schema extended by one field column, a measurement value.
    pub fn add_field(self, name: String, data_type: ColumnDataType, nullable: bool) -> (r: Self)
        ensures
            r@.name == self@.name,
            r@.columns == self@.columns.push(
                (ColumnModel {
                    name: name@,
                    data_type,
                    semantic_type: SemanticType::Field,
                    data_type_extension: None,
                    nullable,
                }),
            ),
    {
        self.push_column(Column {
            name,
            data_type,
            semantic_type: SemanticType::Field,
            data_type_extension: None,
            nullable,
        })
    }

    /// The schema extended by one decimal128 field column with the given
    /// precision and scale.
    pub fn add_decimal128_field(
        self,
        name: String,
        precision: u8,
        scale: i8,
        nullable: bool,
    ) -> (r: Self)
        ensures
            r@.name == self@.name,
            r@.columns == self@.columns.push(
                (ColumnModel {
                    name: name@,
                    data_type: ColumnDataType::Decimal128,
                    semantic_type: SemanticType::Field,
                    data_type_extension: Some(DataTypeExtension::Decimal128 { precision, scale }),
                    nullable,
                }),
            ),
    {
        self.push_column(Column {
            name,
            data_type: ColumnDataType::Decimal128,
            semantic_type: SemanticType::Field,
            data_type_extension: Some(DataTypeExtension::Decimal128 { precision, scale }),
            nullable,
        })
    }

    /// The schema extended by the given column.
    fn push_column(self, column: Column) -> (r: Self)
        ensures
            r@.name == self@.name,
            r@.columns == self@.columns.push(column@),
    {
        let ghost before = self@.columns;
        let ghost pushed = column@;
        let mut columns = self.columns;
        columns.push(column);
        let r = TableSchema { name: self.name, columns };
        proof {
            assert(r@.columns =~= before.push(pushed));
        }
        r
    }
}

/// Why building a schema failed.
#[derive(Debug, Clone, Copy, PartialEq, Eq, Structural)]
pub enum TableSchemaBuilderError {
    /// A required field was never set on the accumulator.
    UninitializedField,
}

/// The mathematical model of a [`TableSchemaBuilder`].
pub struct SchemaBuilderModel {
    pub name: Option<Seq<char>>,
    pub columns: Seq<ColumnModel>,
}

/// The fluent accumulator for a [`TableSchema`]: set the name, optionally
/// seed the column list, then build. The table name is the one required
/// field.
#[derive(Debug)]
pub struct TableSchemaBuilder {
    name: Option<String>,
    columns: Vec<Column>,
}

impl View for TableSchemaBuilder {
    type V = SchemaBuilderModel;

    closed spec fn view(&self) -> SchemaBuilderModel {
        SchemaBuilderModel {
            name: match self.name {
                Some(n) => Some(n@),
                None => None,
            },
            columns: self.columns.deep_view(),
        }
    }
}

impl Default for TableSchemaBuilder {
    /// An accumulator with no name and no columns.
    fn default() -> (b: Self)
        ensures
            b@.name is None,
            b@.columns == Seq::<ColumnModel>::empty(),
    {
        let b = TableSchemaBuilder { name: None, columns: Vec::new() };
        proof {
            assert(b@.columns =~= Seq::<ColumnModel>::empty());
        }
        b
    }
}

impl TableSchemaBuilder {
    /// The accumulator with the table name set.
    pub fn name(self, name: String) -> (r: Self)
        ensures
            r@.name == Some(name@),
            r@.columns == self@.columns,
    {
        TableSchemaBuilder { name: Some(name), columns: self.columns }
    }

    /// The accumulator with the column list replaced.
    pub fn columns(self, columns: Vec<Column>) -> (r: Self)
        ensures
            r@.name == self@.name,
            r@.columns == columns.deep_view(),
    {
        TableSchemaBuilder { name: self.name, columns }
    }

    /// The finished, immutable schema. Fails exactly when the one required
    /// field, the table name, was never set.
    pub fn build(self) -> (r: Result<TableSchema, TableSchemaBuilderError>)
        ensures
            (self@.name matches Some(n) ==> r matches Ok(t) && t@ == (SchemaModel {
                name: n,
                columns: self@.columns,
            })),
            self@.name is None ==> (r matches Err(e)
                && e == TableSchemaBuilderError::UninitializedField),
    {
        match self.name {
            Some(name) => Ok(TableSchema { name, columns: self.columns }),
            None => Err(TableSchemaBuilderError::UninitializedField),
        }
    }
}

} // verus!

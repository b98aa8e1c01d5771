use vstd::prelude::*;

verus! {

/// The logical type of a column.
#[derive(Debug)]
pub enum DataType {
    Boolean,
    Int8,
    Int16,
    Int32,
    Int64,
    UInt8,
    UInt16,
    UInt32,
    UInt64,
    Float32,
    Float64,
    Utf8,
    Binary,
    /// A dictionary-encoded column: integer keys of the first type index
    /// into a values array of the second type.
    Dictionary(Box<DataType>, Box<DataType>),
}

impl DataType {
    pub open spec fn is_integer(self) -> bool {
        match self {
            DataType::Int8 | DataType::Int16 | DataType::Int32 | DataType::Int64 | DataType::UInt8
            | DataType::UInt16 | DataType::UInt32 | DataType::UInt64 => true,
            _ => false,
        }
    }

    pub fn integer(&self) -> (r: bool)
        ensures
            r == self.is_integer(),
    {
        match self {
            DataType::Int8 | DataType::Int16 | DataType::Int32 | DataType::Int64 | DataType::UInt8
            | DataType::UInt16 | DataType::UInt32 | DataType::UInt64 => true,
            _ => false,
        }
    }

    /// The smallest and largest value of an integer type.
    pub open spec fn int_bounds(self) -> (int, int) {
        match self {
            DataType::Int8 => (i8::MIN as int, i8::MAX as int),
            DataType::Int16 => (i16::MIN as int, i16::MAX as int),
            DataType::Int32 => (i32::MIN as int, i32::MAX as int),
            DataType::Int64 => (i64::MIN as int, i64::MAX as int),
            DataType::UInt8 => (0, u8::MAX as int),
            DataType::UInt16 => (0, u16::MAX as int),
            DataType::UInt32 => (0, u32::MAX as int),
            _ => (0, u64::MAX as int),
        }
    }

    pub fn int_range(&self) -> (r: (i128, i128))
        requires
            self.is_integer(),
        ensures
            r.0 == self.int_bounds().0,
            r.1 == self.int_bounds().1,
    {
        match self {
            DataType::Int8 => (i8::MIN as i128, i8::MAX as i128),
            DataType::Int16 => (i16::MIN as i128, i16::MAX as i128),
            DataType::Int32 => (i32::MIN as i128, i32::MAX as i128),
            DataType::Int64 => (i64::MIN as i128, i64::MAX as i128),
            DataType::UInt8 => (0, u8::MAX as i128),
            DataType::UInt16 => (0, u16::MAX as i128),
            DataType::UInt32 => (0, u32::MAX as i128),
            _ => (0, u64::MAX as i128),
        }
    }

    /// Whether this is a dictionary of integer keys over strings.
    pub open spec fn is_string_dictionary(self) -> bool {
        match self {
            DataType::Dictionary(k, v) => k.is_integer() && *v is Utf8,
            _ => false,
        }
    }

    pub fn string_dictionary(&self) -> (r: bool)
        ensures
            r == self.is_string_dictionary(),
    {
        match self {
            DataType::Dictionary(k, v) => (**k).integer() && matches!(**v, DataType::Utf8),
            _ => false,
        }
    }

    /// Whether two fields of these types can carry the same logical values:
    /// the types are the same, or one is plain strings and the other a
    /// dictionary of integer keys over strings.
    pub fn compatible_with(&self, other: &DataType) -> (r: bool)
        ensures
            r == types_compatible(*self, *other),
    {
        self.same_as(other) || (matches!(self, DataType::Utf8) && other.string_dictionary()) || (
        self.string_dictionary() && matches!(other, DataType::Utf8))
    }

    /// Whether two types are the same, dictionary structure included.
    pub fn same_as(&self, other: &DataType) -> (r: bool)
        ensures
            r == (*self == *other),
        decreases self,
    {
        match (self, other) {
            (DataType::Boolean, DataType::Boolean) => true,
            (DataType::Int8, DataType::Int8) => true,
            (DataType::Int16, DataType::Int16) => true,
            (DataType::Int32, DataType::Int32) => true,
            (DataType::Int64, DataType::Int64) => true,
            (DataType::UInt8, DataType::UInt8) => true,
            (DataType::UInt16, DataType::UInt16) => true,
            (DataType::UInt32, DataType::UInt32) => true,
            (DataType::UInt64, DataType::UInt64) => true,
            (DataType::Float32, DataType::Float32) => true,
            (DataType::Float64, DataType::Float64) => true,
            (DataType::Utf8, DataType::Utf8) => true,
            (DataType::Binary, DataType::Binary) => true,
            (DataType::Dictionary(ka, va), DataType::Dictionary(kb, vb)) => {
                let k = (**ka).same_as(&**kb);
                let v = (**va).same_as(&**vb);
                k && v
            },
            _ => false,
        }
    }
}

/// Whether fields of types `a` and `b` can carry the same logical values:
/// equal types, or plain strings against a string dictionary, which differ
/// in encoding only.
pub open spec fn types_compatible(a: DataType, b: DataType) -> bool {
    ||| a == b
    ||| (a is Utf8 && b.is_string_dictionary())
    ||| (a.is_string_dictionary() && b is Utf8)
}

/// One present value of a column. Floating-point values are held as their
/// IEEE-754 bit patterns.
#[derive(Debug, Clone)]
pub enum Value {
    Boolean(bool),
    Int(i128),
    Float32Bits(u32),
    Float64Bits(u64),
    Utf8(String),
    Binary(Vec<u8>),
}

/// Whether a present value belongs to a type.
pub open spec fn value_conforms(v: Value, t: DataType) -> bool {
    match v {
        Value::Boolean(_) => t is Boolean,
        Value::Int(n) => t.is_integer() && t.int_bounds().0 <= n <= t.int_bounds().1,
        Value::Float32Bits(_) => t is Float32,
        Value::Float64Bits(_) => t is Float64,
        Value::Utf8(_) => t is Utf8,
        Value::Binary(_) => t is Binary,
    }
}

/// Whether every present slot belongs to a type.
pub open spec fn slots_conform(s: Seq<Option<Value>>, t: DataType) -> bool {
    forall|i: int| 0 <= i < s.len() && (#[trigger] s[i]) is Some ==> value_conforms(s[i]->0, t)
}

/// Whether every present key indexes into a values array of length `n`.
pub open spec fn keys_in_range(keys: Seq<Option<Value>>, n: int) -> bool {
    forall|i: int|
        0 <= i < keys.len() && (#[trigger] keys[i]) is Some ==> match keys[i]->0 {
            Value::Int(k) => 0 <= k < n,
            _ => false,
        }
}

pub fn value_fits(v: &Value, t: &DataType) -> (r: bool)
    ensures
        r == value_conforms(*v, *t),
{
    match v {
        Value::Boolean(_) => matches!(t, DataType::Boolean),
        Value::Int(n) => {
            if t.integer() {
                let (lo, hi) = t.int_range();
                lo <= *n && *n <= hi
            } else {
                false
            }
        },
        Value::Float32Bits(_) => matches!(t, DataType::Float32),
        Value::Float64Bits(_) => matches!(t, DataType::Float64),
        Value::Utf8(_) => matches!(t, DataType::Utf8),
        Value::Binary(_) => matches!(t, DataType::Binary),
    }
}

pub fn slots_fit(s: &Vec<Option<Value>>, t: &DataType) -> (r: bool)
    ensures
        r == slots_conform(s@, *t),
{
    let mut i: usize = 0;
    while i < s.len()
        invariant
            0 <= i <= s@.len(),
            forall|k: int| 0 <= k < i && (#[trigger] s@[k]) is Some ==> value_conforms(s@[k]->0, *t),
        decreases s@.len() - i,
    {
        match &s[i] {
            Some(v) => {
                if !value_fits(v, t) {
                    return false;
                }
            },
            None => {},
        }
        i = i + 1;
    }
    true
}

pub fn keys_fit(keys: &Vec<Option<Value>>, n: usize) -> (r: bool)
    ensures
        r == keys_in_range(keys@, n as int),
{
    let mut i: usize = 0;
    while i < keys.len()
        invariant
            0 <= i <= keys@.len(),
            forall|k: int|
                0 <= k < i && (#[trigger] keys@[k]) is Some ==> match keys@[k]->0 {
                    Value::Int(x) => 0 <= x < n,
                    _ => false,
                },
        decreases keys@.len() - i,
    {
        match &keys[i] {
            Some(Value::Int(x)) => {
                if !(0 <= *x && *x < n as i128) {
                    return false;
                }
            },
            Some(_) => {
                return false;
            },
            None => {},
        }
        i = i + 1;
    }
    true
}

/// A column: a sequence of optional values, held plainly or as a dictionary
/// of keys into a values array.
#[derive(Debug, Clone)]
pub enum Column {
    Plain(Vec<Option<Value>>),
    Dictionary(Vec<Option<Value>>, Vec<Option<Value>>),
}

impl Column {
    /// The number of rows.
    pub open spec fn len(self) -> nat {
        match self {
            Column::Plain(s) => s@.len(),
            Column::Dictionary(keys, _) => keys@.len(),
        }
    }

    /// The logical value at row `i`: for a dictionary, the value its key
    /// points at, and null where the key is null or points nowhere.
    pub open spec fn slot(self, i: int) -> Option<Value> {
        match self {
            Column::Plain(s) => s@[i],
            Column::Dictionary(keys, values) => match keys@[i] {
                Some(Value::Int(k)) => if 0 <= k < values@.len() {
                    values@[k as int]
                } else {
                    None
                },
                _ => None,
            },
        }
    }

    /// The logical values, row by row.
    pub open spec fn logical(self) -> Seq<Option<Value>> {
        Seq::new(self.len(), |i: int| self.slot(i))
    }

    /// Whether this column holds values of type `t`, as a dictionary exactly
    /// when `t` is a dictionary type.
    pub open spec fn conforms(self, t: DataType) -> bool {
        match t {
            DataType::Dictionary(kt, vt) => match self {
                Column::Dictionary(keys, values) => {
                    &&& kt.is_integer()
                    &&& slots_conform(keys@, *kt)
                    &&& slots_conform(values@, *vt)
                    &&& keys_in_range(keys@, values@.len() as int)
                },
                Column::Plain(_) => false,
            },
            _ => match self {
                Column::Plain(s) => slots_conform(s@, t),
                Column::Dictionary(_, _) => false,
            },
        }
    }

    pub fn fits(&self, t: &DataType) -> (r: bool)
        ensures
            r == self.conforms(*t),
    {
        match t {
            DataType::Dictionary(kt, vt) => match self {
                Column::Dictionary(keys, values) => {
                    (**kt).integer() && slots_fit(keys, &**kt) && slots_fit(values, &**vt) && keys_fit(
                        keys,
                        values.len(),
                    )
                },
                Column::Plain(_) => false,
            },
            _ => match self {
                Column::Plain(s) => slots_fit(s, t),
                Column::Dictionary(_, _) => false,
            },
        }
    }

    pub fn num_rows(&self) -> (r: usize)
        ensures
            r == self.len(),
    {
        match self {
            Column::Plain(s) => s.len(),
            Column::Dictionary(keys, _) => keys.len(),
        }
    }
}

/// A named, typed column of a schema.
#[derive(Debug)]
pub struct Field {
    pub name: String,
    pub data_type: DataType,
}

/// The ordered fields of a batch.
#[derive(Debug)]
pub struct Schema {
    pub fields: Vec<Field>,
}

pub open spec fn field_eq(a: Field, b: Field) -> bool {
    a.name@ == b.name@ && a.data_type == b.data_type
}

/// Two schemas are equal when their fields agree in order, name and type.
pub open spec fn schema_eq(a: Schema, b: Schema) -> bool {
    &&& a.fields@.len() == b.fields@.len()
    &&& forall|j: int| 0 <= j < a.fields@.len() ==> field_eq(#[trigger] a.fields@[j], b.fields@[j])
}

pub open spec fn field_compatible(a: Field, b: Field) -> bool {
    a.name@ == b.name@ && types_compatible(a.data_type, b.data_type)
}

/// Two schemas are compatible when their fields agree in order and name,
/// and pairwise in type up to the encoding of string columns.
pub open spec fn schema_compatible(a: Schema, b: Schema) -> bool {
    &&& a.fields@.len() == b.fields@.len()
    &&& forall|j: int| 0 <= j < a.fields@.len() ==> field_compatible(#[trigger] a.fields@[j], b.fields@[j])
}

impl Field {
    pub fn compatible_with(&self, other: &Field) -> (r: bool)
        ensures
            r == field_compatible(*self, *other),
    {
        self.name == other.name && self.data_type.compatible_with(&other.data_type)
    }

    pub fn new(name: String, data_type: DataType) -> (r: Field)
        ensures
            r.name == name,
            r.data_type == data_type,
    {
        Field { name, data_type }
    }

    pub fn equals(&self, other: &Field) -> (r: bool)
        ensures
            r == field_eq(*self, *other),
    {
        self.name == other.name && self.data_type.same_as(&other.data_type)
    }
}

impl Schema {
    pub fn compatible_with(&self, other: &Schema) -> (r: bool)
        ensures
            r == schema_compatible(*self, *other),
    {
        if self.fields.len() != other.fields.len() {
            return false;
        }
        let mut j: usize = 0;
        while j < self.fields.len()
            invariant
                self.fields@.len() == other.fields@.len(),
                0 <= j <= self.fields@.len(),
                forall|k: int| 0 <= k < j ==> field_compatible(#[trigger] self.fields@[k], other.fields@[k]),
            decreases self.fields@.len() - j,
        {
            if !self.fields[j].compatible_with(&other.fields[j]) {
                return false;
            }
            j = j + 1;
        }
        true
    }

    pub fn new(fields: Vec<Field>) -> (r: Schema)
        ensures
            r.fields == fields,
    {
        Schema { fields }
    }

    pub fn equals(&self, other: &Schema) -> (r: bool)
        ensures
            r == schema_eq(*self, *other),
    {
        if self.fields.len() != other.fields.len() {
            return false;
        }
        let mut j: usize = 0;
        while j < self.fields.len()
            invariant
                self.fields@.len() == other.fields@.len(),
                0 <= j <= self.fields@.len(),
                forall|k: int| 0 <= k < j ==> field_eq(#[trigger] self.fields@[k], other.fields@[k]),
            decreases self.fields@.len() - j,
        {
            if !self.fields[j].equals(&other.fields[j]) {
                return false;
            }
            j = j + 1;
        }
        true
    }
}

/// A schema with one column per field, all of one length.
#[derive(Debug)]
pub struct RecordBatch {
    pub schema: Schema,
    pub columns: Vec<Column>,
    pub num_rows: usize,
}

/// Why a set of columns does not make a batch.
#[derive(Debug, Clone, PartialEq, Eq)]
pub enum BatchError {
    /// The number of columns is not the number of fields.
    ColumnCount { expected: usize, found: usize },
    /// A column's length is not the batch's row count.
    RowCount { column: usize, expected: usize, found: usize },
    /// A column does not hold values of its field's type.
    ColumnType { column: usize },
}

/// Whether column `j` has the batch's row count and its field's type.
pub open spec fn column_ok(schema: Schema, columns: Seq<Column>, num_rows: usize, j: int) -> bool {
    columns[j].len() == num_rows && columns[j].conforms(schema.fields@[j].data_type)
}

pub open spec fn batch_wf(schema: Schema, columns: Seq<Column>, num_rows: usize) -> bool {
    &&& columns.len() == schema.fields@.len()
    &&& forall|j: int| 0 <= j < columns.len() ==> #[trigger] column_ok(schema, columns, num_rows, j)
}

impl RecordBatch {
    pub open spec fn wf(self) -> bool {
        batch_wf(self.schema, self.columns@, self.num_rows)
    }

    /// Whether every column has the batch's row count and its field's type.
    pub fn is_well_formed(&self) -> (r: bool)
        ensures
            r == self.wf(),
    {
        if self.columns.len() != self.schema.fields.len() {
            return false;
        }
        let mut j: usize = 0;
        while j < self.columns.len()
            invariant
                self.columns@.len() == self.schema.fields@.len(),
                0 <= j <= self.columns@.len(),
                forall|k: int| 0 <= k < j ==> #[trigger] column_ok(self.schema, self.columns@, self.num_rows, k),
            decreases self.columns@.len() - j,
        {
            if self.columns[j].num_rows() != self.num_rows || !self.columns[j].fits(&self.schema.fields[j].data_type) {
                assert(!column_ok(self.schema, self.columns@, self.num_rows, j as int));
                return false;
            }
            j = j + 1;
        }
        true
    }

    /// Builds a batch, checking each column against its field in order.
    pub fn try_new(schema: Schema, columns: Vec<Column>, num_rows: usize) -> (r: Result<
        RecordBatch,
        BatchError,
    >)
        ensures
            r is Ok <==> batch_wf(schema, columns@, num_rows),
            r matches Ok(b) ==> b.schema == schema && b.columns == columns && b.num_rows == num_rows,
            r matches Err(BatchError::ColumnCount { expected, found }) ==> expected
                == schema.fields@.len() && found == columns@.len() && expected != found,
            r matches Err(BatchError::RowCount { column, expected, found }) ==> {
                &&& columns@.len() == schema.fields@.len()
                &&& column < columns@.len()
                &&& expected == num_rows
                &&& found == columns@[column as int].len()
                &&& found != expected
                &&& forall|k: int| 0 <= k < column ==> #[trigger] column_ok(schema, columns@, num_rows, k)
            },
            r matches Err(BatchError::ColumnType { column }) ==> {
                &&& columns@.len() == schema.fields@.len()
                &&& column < columns@.len()
                &&& columns@[column as int].len() == num_rows
                &&& !columns@[column as int].conforms(schema.fields@[column as int].data_type)
                &&& forall|k: int| 0 <= k < column ==> #[trigger] column_ok(schema, columns@, num_rows, k)
            },
    {
        if columns.len() != schema.fields.len() {
            return Err(BatchError::ColumnCount { expected: schema.fields.len(), found: columns.len() });
        }
        let mut j: usize = 0;
        while j < columns.len()
            invariant
                columns@.len() == schema.fields@.len(),
                0 <= j <= columns@.len(),
                forall|k: int| 0 <= k < j ==> #[trigger] column_ok(schema, columns@, num_rows, k),
            decreases columns@.len() - j,
        {
            let found = columns[j].num_rows();
            if found != num_rows {
                assert(!column_ok(schema, columns@, num_rows, j as int));
                return Err(BatchError::RowCount { column: j, expected: num_rows, found });
            }
            if !columns[j].fits(&schema.fields[j].data_type) {
                assert(!column_ok(schema, columns@, num_rows, j as int));
                return Err(BatchError::ColumnType { column: j });
            }
            j = j + 1;
        }
        Ok(RecordBatch { schema, columns, num_rows })
    }
}

} // verus!

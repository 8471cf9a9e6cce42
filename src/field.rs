use vstd::prelude::*;

verus! {

/// Types a field of a layer's schema can have (`OGRFieldType`).
#[derive(Clone, Copy, Debug, PartialEq, Eq, Structural)]
pub enum FieldType {
    Integer,
    IntegerList,
    Real,
    RealList,
    String,
    StringList,
    WideString,
    WideStringList,
    Binary,
    Date,
    Time,
    DateTime,
    Integer64,
    Integer64List,
}

impl FieldType {
    /// The native code of each type, in the order the types are listed.
    pub open spec fn code_spec(&self) -> i32 {
        match self {
            FieldType::Integer => 0,
            FieldType::IntegerList => 1,
            FieldType::Real => 2,
            FieldType::RealList => 3,
            FieldType::String => 4,
            FieldType::StringList => 5,
            FieldType::WideString => 6,
            FieldType::WideStringList => 7,
            FieldType::Binary => 8,
            FieldType::Date => 9,
            FieldType::Time => 10,
            FieldType::DateTime => 11,
            FieldType::Integer64 => 12,
            FieldType::Integer64List => 13,
        }
    }

    pub fn code(&self) -> (r: i32)
        ensures
            r == self.code_spec(),
    {
        match self {
            FieldType::Integer => 0,
            FieldType::IntegerList => 1,
            FieldType::Real => 2,
            FieldType::RealList => 3,
            FieldType::String => 4,
            FieldType::StringList => 5,
            FieldType::WideString => 6,
            FieldType::WideStringList => 7,
            FieldType::Binary => 8,
            FieldType::Date => 9,
            FieldType::Time => 10,
            FieldType::DateTime => 11,
            FieldType::Integer64 => 12,
            FieldType::Integer64List => 13,
        }
    }
}

/// An attribute value to be written into a feature.
///
/// A real value is carried as the IEEE-754 bit pattern of the `f64` it stands
/// for: the library only hands it on to the native setter.
#[derive(Debug)]
pub enum FieldValue {
    StringValue(String),
    IntegerValue(i32),
    RealValue(u64),
}

/// What a `FieldValue` holds, as plain mathematical values.
pub enum FieldValueView {
    Str(Seq<char>),
    Int(i32),
    Real(u64),
}

impl View for FieldValue {
    type V = FieldValueView;

    open spec fn view(&self) -> FieldValueView {
        match self {
            FieldValue::StringValue(s) => FieldValueView::Str(s@),
            FieldValue::IntegerValue(i) => FieldValueView::Int(*i),
            FieldValue::RealValue(b) => FieldValueView::Real(*b),
        }
    }
}

impl FieldValue {
    /// A copy of this value.
    pub fn duplicate(&self) -> (r: FieldValue)
        ensures
            r@ == self@,
    {
        match self {
            FieldValue::StringValue(s) => FieldValue::StringValue(s.clone()),
            FieldValue::IntegerValue(i) => FieldValue::IntegerValue(*i),
            FieldValue::RealValue(b) => FieldValue::RealValue(*b),
        }
    }
}

/// The description of one field of a schema: name, type, width and precision.
///
/// A fresh definition has width and precision 0, which the native library
/// reads as "unspecified".
#[derive(Debug)]
pub struct FieldDefn {
    pub name: String,
    pub field_type: FieldType,
    pub width: i32,
    pub precision: i32,
}

impl FieldDefn {
    /// A definition of the field `name` of type `field_type`, with width and
    /// precision unspecified.
    pub fn new(name: &str, field_type: FieldType) -> (r: FieldDefn)
        ensures
            r.name@ == name@,
            r.field_type == field_type,
            r.width == 0,
            r.precision == 0,
    {
        FieldDefn { name: name.to_string(), field_type, width: 0, precision: 0 }
    }

    /// Sets the formatting width of the field.
    pub fn set_width(&mut self, width: i32)
        ensures
            final(self).width == width,
            final(self).name@ == old(self).name@,
            final(self).field_type == old(self).field_type,
            final(self).precision == old(self).precision,
    {
        self.width = width;
    }

    /// Sets the formatting precision of the field.
    pub fn set_precision(&mut self, precision: i32)
        ensures
            final(self).precision == precision,
            final(self).name@ == old(self).name@,
            final(self).field_type == old(self).field_type,
            final(self).width == old(self).width,
    {
        self.precision = precision;
    }
}

/// The field definitions that `create_defn_fields` registers, one for each
/// `(name, type)` pair and in the same order.
pub fn create_defn_fields(fields_def: &Vec<(String, FieldType)>) -> (r: Vec<FieldDefn>)
    ensures
        r@.len() == fields_def@.len(),
        forall|i: int|
            0 <= i < r@.len() ==> {
                &&& (#[trigger] r@[i]).name@ == fields_def@[i].0@
                &&& r@[i].field_type == fields_def@[i].1
                &&& r@[i].width == 0
                &&& r@[i].precision == 0
            },
{
    let mut r: Vec<FieldDefn> = Vec::new();
    let mut k: usize = 0;
    while k < fields_def.len()
        invariant
            k <= fields_def@.len(),
            r@.len() == k,
            forall|i: int|
                0 <= i < k ==> {
                    &&& (#[trigger] r@[i]).name@ == fields_def@[i].0@
                    &&& r@[i].field_type == fields_def@[i].1
                    &&& r@[i].width == 0
                    &&& r@[i].precision == 0
                },
        decreases fields_def@.len() - k,
    {
        let fd = &fields_def[k];
        r.push(FieldDefn::new(fd.0.as_str(), fd.1));
        k = k + 1;
    }
    r
}

} // verus!

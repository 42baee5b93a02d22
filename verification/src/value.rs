use vstd::prelude::*;

verus! {

/// A single atomic datum of a record.
#[derive(Clone, Debug, PartialEq)]
pub enum Scalar {
    Bool(bool),
    Int(i64),
    Text(String),
}

/// The mathematical form of a [`Scalar`].
pub enum ScalarModel {
    Bool(bool),
    Int(int),
    Text(Seq<char>),
}

/// A field's value: one scalar, or a list of scalars.
#[derive(Clone, Debug, PartialEq)]
pub enum Field {
    Atom(Scalar),
    List(Vec<Scalar>),
}

/// The mathematical form of a [`Field`].
pub enum FieldModel {
    Atom(ScalarModel),
    List(Seq<ScalarModel>),
}

/// An encodable/decodable value: a record of named fields, in order.
///
/// The record is deliberately flat: a field holds a scalar or a list of
/// scalars, never a further record, so that the document boundary stays a
/// handful of one-for-one conversions. Field order is part of the value;
/// the TOML codec hands a parsed table back sorted by key, so only a
/// record whose fields already stand in key order survives a TOML round
/// trip unchanged, and a record with duplicate keys collapses to the last
/// one under every codec.
#[derive(Clone, Debug, PartialEq)]
pub struct Record {
    pub fields: Vec<(String, Field)>,
}

/// The mathematical form of a [`Record`].
pub struct RecordModel {
    pub fields: Seq<(Seq<char>, FieldModel)>,
}

impl View for Scalar {
    type V = ScalarModel;

    open spec fn view(&self) -> ScalarModel {
        match self {
            Scalar::Bool(b) => ScalarModel::Bool(*b),
            Scalar::Int(i) => ScalarModel::Int(*i as int),
            Scalar::Text(t) => ScalarModel::Text(t@),
        }
    }
}

impl View for Field {
    type V = FieldModel;

    open spec fn view(&self) -> FieldModel {
        match self {
            Field::Atom(s) => FieldModel::Atom(s@),
            Field::List(items) => FieldModel::List(items@.map_values(|s: Scalar| s@)),
        }
    }
}

impl View for Record {
    type V = RecordModel;

    open spec fn view(&self) -> RecordModel {
        RecordModel { fields: self.fields@.map_values(|kf: (String, Field)| (kf.0@, kf.1@)) }
    }
}

} // verus!

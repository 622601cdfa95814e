// The union the original exercises: `MyError` with `Rc`-wrapped payloads and
// the wrapper argument configured as `Rc`. The two `From` impls below are
// written exactly as the engine's synthesized conversions dictate — the
// `myerror_synthesis` test checks that the engine, run on the model of this
// definition, mandates precisely these two impls and nothing else.

use std::rc::Rc;

use this_error_from_box::model::{
    DefData, FieldAttr, FieldDef, FieldType, GenericArg, PathSegment, SegmentArgs, TypeDefinition,
    VariantDef, VariantFields, WrapperPath,
};
use this_error_from_box::this_error_from_box;

pub enum MyError {
    Io(Rc<std::io::Error>),
    Utf8(Rc<std::string::FromUtf8Error>),
    Other,
}

impl From<std::io::Error> for MyError {
    fn from(e: std::io::Error) -> Self {
        MyError::Io(Rc::from(e))
    }
}

impl From<std::string::FromUtf8Error> for MyError {
    fn from(e: std::string::FromUtf8Error) -> Self {
        MyError::Utf8(Rc::from(e))
    }
}

fn chars(s: &str) -> Vec<char> {
    s.chars().collect()
}

fn wrapped_field(wrapper: &str, inner: &str, attrs: Vec<FieldAttr>) -> FieldDef {
    FieldDef {
        attrs,
        ty: FieldType::PathType {
            global: false,
            segments: vec![PathSegment {
                name: chars(wrapper),
                args: SegmentArgs::AngleArgs(vec![GenericArg::TypeArg(chars(inner))]),
            }],
        },
    }
}

fn myerror_model() -> TypeDefinition {
    TypeDefinition {
        name: chars("MyError"),
        data: DefData::EnumData(vec![
            VariantDef {
                name: chars("Io"),
                fields: VariantFields::Unnamed(vec![wrapped_field(
                    "Rc",
                    "std::io::Error",
                    vec![
                        FieldAttr::NamedAttr(chars("error")),
                        FieldAttr::NamedAttr(chars("from")),
                    ],
                )]),
            },
            VariantDef {
                name: chars("Utf8"),
                fields: VariantFields::Unnamed(vec![wrapped_field(
                    "Rc",
                    "std::string::FromUtf8Error",
                    vec![
                        FieldAttr::NamedAttr(chars("error")),
                        FieldAttr::NamedAttr(chars("from")),
                    ],
                )]),
            },
            VariantDef { name: chars("Other"), fields: VariantFields::Unit },
        ]),
    }
}

#[test]
fn test_from_io_error() {
    let io_err = std::io::Error::other("fail");
    let err: MyError = io_err.into();
    match err {
        MyError::Io(boxed) => assert_eq!(boxed.kind(), std::io::ErrorKind::Other),
        _ => panic!("Falsche Variante"),
    }
}

#[test]
fn test_from_utf8_error() {
    let bytes = vec![0xff];
    let utf8_err = String::from_utf8(bytes).unwrap_err();
    let err: MyError = utf8_err.into();
    match err {
        MyError::Utf8(boxed) => assert_eq!(boxed.utf8_error().valid_up_to(), 0),
        _ => panic!("Falsche Variante"),
    }
}

#[test]
fn myerror_synthesis() {
    let wrapper = Some(WrapperPath { global: false, segments: vec![chars("Rc")] });
    let fragment = this_error_from_box(wrapper, myerror_model());
    assert_eq!(fragment.original, myerror_model());
    assert_eq!(fragment.impls.len(), 2);
    assert_eq!(fragment.impls[0].enum_name, chars("MyError"));
    assert_eq!(fragment.impls[0].variant_name, chars("Io"));
    assert_eq!(fragment.impls[0].inner_ty, chars("std::io::Error"));
    assert!(!fragment.impls[0].wrapper.global);
    assert_eq!(fragment.impls[0].wrapper.segments, vec![chars("Rc")]);
    assert_eq!(fragment.impls[1].enum_name, chars("MyError"));
    assert_eq!(fragment.impls[1].variant_name, chars("Utf8"));
    assert_eq!(fragment.impls[1].inner_ty, chars("std::string::FromUtf8Error"));
    assert_eq!(fragment.impls[1].wrapper.segments, vec![chars("Rc")]);
}

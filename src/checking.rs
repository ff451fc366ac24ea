//! Checks on the syntax tree that come before the class model is built.
use vstd::prelude::*;
use crate::ast;
use crate::errors::Result;

verus! {

/// Checks a program before its model is built. Every class is accepted as
/// declared: the checks that refuse a program belong to the model builder.
pub fn check_program(program: &ast::Program) -> (r: Result<()>)
    ensures
        r is Ok,
{
    let classes = ast::get_program_classes(program);
    let mut i: usize = 0;
    while i < classes.len()
        invariant
            i <= classes@.len(),
        decreases classes.len() - i,
    {
        check_class(classes[i])?;
        i += 1;
    }
    Ok(())
}

fn check_class(class: &ast::Class) -> (r: Result<()>)
    ensures
        r is Ok,
{
    check_class_items(class)
}

fn check_class_items(_class: &ast::Class) -> (r: Result<()>)
    ensures
        r is Ok,
{
    Ok(())
}

/// Checks a program that declares one empty class.
pub fn run() -> (r: bool)
    ensures
        r,
{
    let program = ast::Program {
        items: vec![ast::Item::Class(ast::Class { name: String::from_str("Foo"), extends: None, fields: Vec::new() })],
    };
    check_program(&program).is_ok()
}

} // verus!

//! Function lookup by address over a program's symbol table.
//!
//! Symbols come from the program's `nm -S` listing: one line per symbol, with
//! the start address and size in hexadecimal, a type letter and the name.
use vstd::prelude::*;
use crate::address::{address_of, parse_address};
use crate::text::str_eq;

verus! {

/// A function symbol: the code it covers is `start .. start + size`.
pub struct Symbol {
    pub start: usize,
    pub size: usize,
    pub name: String,
}

/// Whether `addr` lies in the code of `sym`.
pub open spec fn covers(sym: Symbol, addr: usize) -> bool {
    sym.start <= addr && addr < sym.start + sym.size
}

/// The type letters of code symbols (global and local text).
pub open spec fn is_code_type(t: Seq<char>) -> bool {
    t == "T"@ || t == "t"@
}

/// Reads the fields of one listing line: start, size, type, name. Only
/// code symbols with well-formed hexadecimal start and size are kept.
pub fn symbol_from_fields(fields: &Vec<&str>) -> (r: Option<Symbol>)
    ensures
        r is Some <==> (fields.len() == 4 && address_of(fields[0]@) is Some && address_of(
            fields[1]@,
        ) is Some && is_code_type(fields[2]@)),
        r matches Some(sym) ==> sym.start == address_of(fields[0]@)->Some_0 && sym.size
            == address_of(fields[1]@)->Some_0 && sym.name@ == fields[3]@,
{
    if fields.len() != 4 {
        return None;
    }
    proof {
        reveal_strlit("T");
        reveal_strlit("t");
    }
    if !(str_eq(fields[2], "T") || str_eq(fields[2], "t")) {
        return None;
    }
    let start = match parse_address(fields[0]) {
        Some(v) => v,
        None => return None,
    };
    let size = match parse_address(fields[1]) {
        Some(v) => v,
        None => return None,
    };
    Some(Symbol { start, size, name: fields[3].to_owned() })
}

/// The name of the first symbol of `symbols` whose code holds `addr`.
pub fn function_at(symbols: &Vec<Symbol>, addr: usize) -> (r: Option<String>)
    ensures
        r is Some <==> exists|i: int| 0 <= i < symbols.len() && covers(symbols[i], addr),
        r matches Some(name) ==> exists|i: int|
            0 <= i < symbols.len() && covers(symbols[i], addr) && name@ == symbols[i].name@ && (
            forall|j: int| 0 <= j < i ==> !covers(symbols[j], addr)),
{
    let mut i: usize = 0;
    while i < symbols.len()
        invariant
            i <= symbols.len(),
            forall|j: int| 0 <= j < i ==> !covers(symbols[j], addr),
        decreases symbols.len() - i,
    {
        let sym = &symbols[i];
        if sym.start <= addr && addr - sym.start < sym.size {
            let name = sym.name.clone();
            assert(covers(symbols[i as int], addr));
            return Some(name);
        }
        i += 1;
    }
    None
}

} // verus!

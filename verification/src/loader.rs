//! Reading a catalogue from a JSON document of the shape in which opcode
//! tables of this machine are commonly published: an object with the two
//! tables `unprefixed` and `cbprefixed`, each an object with an entry
//! under `0x00` to `0xFF`, each entry with its `mnemonic`, its `bytes`, its
//! `operands` and its `flags`.
//!
//! The document is parsed by `serde_json`; what is done with the parsed
//! value is verified against a model of that value.

use vstd::prelude::*;
use vstd::string::*;
use serde_json::Value;
use crate::error::TableError;
use crate::opcodes::{
    mnemonic_named, operand_named, FlagEffect, FlagEffects, Mnemonic, OpcodeDescriptor,
    OpcodeTable, Operand, OperandName, Operands, TABLE_SIZE,
};
use crate::text::{hex_byte, push_hex_byte, same_text};

verus! {

/// `serde_json::Value`, a parsed JSON value. Nothing inside it is visible
/// here; what it holds is known only as far as `json_of` and the
/// functions below say.
#[verifier::external_type_specification]
#[verifier::external_body]
pub struct ExValue(serde_json::Value);

/// `serde_json::Error`, the reason why a text could not be parsed. It is
/// carried, never looked into.
#[verifier::external_type_specification]
#[verifier::external_body]
pub struct ExError(serde_json::Error);

/// What a JSON value holds. Of numbers the catalogue reads unsigned
/// integers only; every other number is the same to it.
pub ghost enum Json {
    Null,
    Bool(bool),
    Unsigned(u64),
    OtherNumber,
    Text(Seq<char>),
    Array(Seq<Json>),
    Object(Map<Seq<char>, Json>),
}

/// What a parsed value holds.
pub uninterp spec fn json_of(value: Value) -> Json;

/// What a text holds when it is read as a JSON document, if it is one.
pub uninterp spec fn json_parsed(text: Seq<char>) -> Option<Json>;

/// The member of an object under a key.
pub open spec fn member(json: Json, key: Seq<char>) -> Option<Json> {
    match json {
        Json::Object(members) => if members.contains_key(key) {
            Some(members[key])
        } else {
            None
        },
        _ => None,
    }
}

/// `serde_json::from_str` for a `Value`: the value that the text holds
/// as a JSON document, or an error where the text is none.
#[verifier::external_body]
fn parse_json(text: &str) -> (r: Result<Value, serde_json::Error>)
    ensures
        match r {
            Ok(value) => json_parsed(text@) == Some(json_of(value)),
            Err(_) => json_parsed(text@) is None,
        },
{
    serde_json::from_str(text)
}

/// `Value::get` with a text key: the member of an object under the key;
/// nothing where the value is no object or has no such member.
#[verifier::external_body]
fn json_member<'a>(value: &'a Value, key: &str) -> (r: Option<&'a Value>)
    ensures
        match r {
            Some(found) => member(json_of(*value), key@) == Some(json_of(*found)),
            None => member(json_of(*value), key@) is None,
        },
{
    value.get(key)
}

/// `Value::as_str`: the text of a string value; nothing for any other value.
#[verifier::external_body]
fn json_text<'a>(value: &'a Value) -> (r: Option<&'a str>)
    ensures
        match r {
            Some(text) => json_of(*value) == Json::Text(text@),
            None => !(json_of(*value) is Text),
        },
{
    value.as_str()
}

/// `Value::as_u64`: the number of an unsigned integer value; nothing for
/// any other value.
#[verifier::external_body]
fn json_unsigned(value: &Value) -> (r: Option<u64>)
    ensures
        match r {
            Some(number) => json_of(*value) == Json::Unsigned(number),
            None => !(json_of(*value) is Unsigned),
        },
{
    value.as_u64()
}

/// `Value::as_bool`: the truth value of a boolean value; nothing for any
/// other value.
#[verifier::external_body]
fn json_bool(value: &Value) -> (r: Option<bool>)
    ensures
        match r {
            Some(truth) => json_of(*value) == Json::Bool(truth),
            None => !(json_of(*value) is Bool),
        },
{
    value.as_bool()
}

/// `Value::as_array`: the elements of an array value, in order; nothing
/// for any other value.
#[verifier::external_body]
fn json_elements<'a>(value: &'a Value) -> (r: Option<&'a Vec<Value>>)
    ensures
        match r {
            Some(items) => json_of(*value) matches Json::Array(elements) && elements.len()
                == items@.len() && forall|i: int|
                0 <= i < items@.len() ==> json_of(#[trigger] items@[i]) == elements[i],
            None => !(json_of(*value) is Array),
        },
{
    value.as_array()
}

/// `Value::is_object`: whether the value is an object.
#[verifier::external_body]
fn is_object(value: &Value) -> (r: bool)
    ensures
        r == (json_of(*value) is Object),
{
    value.is_object()
}

// -------------------------------------------------------------- the reading

/// The key of an opcode in a table: `0x` and two hexadecimal digits.
pub open spec fn key_of(byte: u8) -> Seq<char> {
    "0x"@ + hex_byte(byte)
}

/// The declared effect that a tag stands for: `-`, `0`, `1`, or the
/// letter of the flag itself where the flag is computed.
pub open spec fn effect_of(tag: Option<Json>, letter: Seq<char>) -> Option<FlagEffect> {
    match tag {
        Some(Json::Text(text)) => if text == "-"@ {
            Some(FlagEffect::Unaffected)
        } else if text == "0"@ {
            Some(FlagEffect::ForcedOff)
        } else if text == "1"@ {
            Some(FlagEffect::ForcedOn)
        } else if text == letter {
            Some(FlagEffect::Computed)
        } else {
            None
        },
        _ => None,
    }
}

/// The declared effects of an entry: a tag for each of `Z`, `N`, `H`, `C`.
pub open spec fn effects_of(flags: Option<Json>) -> Option<FlagEffects> {
    match flags {
        Some(object) => match (
            effect_of(member(object, "Z"@), "Z"@),
            effect_of(member(object, "N"@), "N"@),
            effect_of(member(object, "H"@), "H"@),
            effect_of(member(object, "C"@), "C"@),
        ) {
            (Some(zero), Some(sub), Some(half_carry), Some(carry)) => Some(
                FlagEffects { zero, sub, half_carry, carry },
            ),
            _ => None,
        },
        None => None,
    }
}

/// A switch of an operand: off where the operand does not have it, else
/// the boolean it holds.
pub open spec fn switch_of(switch: Option<Json>) -> Option<bool> {
    match switch {
        None => Some(false),
        Some(Json::Bool(on)) => Some(on),
        Some(_) => None,
    }
}

/// An operand: its `name`, a text, and its switches `immediate`,
/// `increment` and `decrement`.
pub open spec fn operand_of(json: Json) -> Option<Operand> {
    match (
        member(json, "name"@),
        switch_of(member(json, "immediate"@)),
        switch_of(member(json, "increment"@)),
        switch_of(member(json, "decrement"@)),
    ) {
        (Some(Json::Text(name)), Some(immediate), Some(increment), Some(decrement)) => Some(
            Operand { name: operand_named(name), immediate, increment, decrement },
        ),
        _ => None,
    }
}

/// The operands of an entry: an array of at most three operands.
pub open spec fn operands_of(operands: Option<Json>) -> Option<Operands> {
    match operands {
        Some(Json::Array(items)) => if items.len() == 0 {
            Some(Operands::Empty)
        } else if items.len() == 1 {
            match operand_of(items[0]) {
                Some(a) => Some(Operands::One(a)),
                None => None,
            }
        } else if items.len() == 2 {
            match (operand_of(items[0]), operand_of(items[1])) {
                (Some(a), Some(b)) => Some(Operands::Two(a, b)),
                _ => None,
            }
        } else if items.len() == 3 {
            match (operand_of(items[0]), operand_of(items[1]), operand_of(items[2])) {
                (Some(a), Some(b), Some(c)) => Some(Operands::Three(a, b, c)),
                _ => None,
            }
        } else {
            None
        },
        _ => None,
    }
}

/// The mnemonic of an entry: a text that is not empty.
pub open spec fn mnemonic_of(mnemonic: Option<Json>) -> Option<Mnemonic> {
    match mnemonic {
        Some(Json::Text(name)) => if name.len() == 0 {
            None
        } else {
            Some(mnemonic_named(name))
        },
        _ => None,
    }
}

/// The length of an entry: an unsigned integer that fits a byte.
pub open spec fn length_of(bytes: Option<Json>) -> Option<u8> {
    match bytes {
        Some(Json::Unsigned(length)) => if length <= 255 {
            Some(length as u8)
        } else {
            None
        },
        _ => None,
    }
}

/// The entry that a JSON value describes, if it is well-formed.
pub open spec fn entry_of(json: Json) -> Option<OpcodeDescriptor> {
    match (
        mnemonic_of(member(json, "mnemonic"@)),
        length_of(member(json, "bytes"@)),
        operands_of(member(json, "operands"@)),
        effects_of(member(json, "flags"@)),
    ) {
        (Some(mnemonic), Some(bytes), Some(operands), Some(flags)) => Some(
            OpcodeDescriptor { mnemonic, bytes, operands, flags },
        ),
        _ => None,
    }
}

/// What a table holds for an opcode: nothing where it has no member under
/// the opcode's key, else the entry that the member describes. The outer
/// option is empty where the member is malformed.
pub open spec fn slot_of(table: Json, byte: u8) -> Option<Option<OpcodeDescriptor>> {
    match member(table, key_of(byte)) {
        None => Some(None),
        Some(entry) => match entry_of(entry) {
            Some(descriptor) => Some(Some(descriptor)),
            None => None,
        },
    }
}

/// The first opcode from `from` on whose member in a table is malformed.
pub open spec fn first_malformed(table: Json, from: int) -> Option<u8>
    decreases TABLE_SIZE - from,
{
    if from < 0 || from >= TABLE_SIZE {
        None
    } else if slot_of(table, from as u8) is None {
        Some(from as u8)
    } else {
        first_malformed(table, from + 1)
    }
}

/// One of the two tables of a document, if the document has it and it is
/// an object.
pub open spec fn table_of(root: Json, prefixed: bool) -> Option<Json> {
    let name = if prefixed {
        "cbprefixed"@
    } else {
        "unprefixed"@
    };
    match member(root, name) {
        Some(Json::Object(members)) => Some(Json::Object(members)),
        _ => None,
    }
}

/// Why a document gives no catalogue, if it gives none.
pub open spec fn catalogue_error(root: Json) -> Option<TableError> {
    match (table_of(root, false), table_of(root, true)) {
        (Some(plain), Some(escaped)) => match first_malformed(plain, 0) {
            Some(byte) => Some(TableError::MalformedEntry(false, byte)),
            None => match first_malformed(escaped, 0) {
                Some(byte) => Some(TableError::MalformedEntry(true, byte)),
                None => None,
            },
        },
        _ => Some(TableError::MissingTable),
    }
}

/// Whether a catalogue holds what a document describes.
pub open spec fn holds_catalogue(table: OpcodeTable, root: Json) -> bool {
    forall|prefixed: bool, byte: u8|
        table_of(root, prefixed) matches Some(json) && slot_of(json, byte) == Some(
            #[trigger] table.entry(prefixed, byte),
        )
}

fn make_key(byte: u8) -> (key: String)
    ensures
        key@ == key_of(byte),
{
    let mut key = String::new();
    key.append("0x");
    push_hex_byte(&mut key, byte);
    assert(key@ =~= key_of(byte));
    key
}

fn read_effect(flags: &Value, letter: &str) -> (r: Option<FlagEffect>)
    ensures
        r == effect_of(member(json_of(*flags), letter@), letter@),
{
    match json_member(flags, letter) {
        Some(tag) => match json_text(tag) {
            Some(text) => if same_text(text, "-") {
                Some(FlagEffect::Unaffected)
            } else if same_text(text, "0") {
                Some(FlagEffect::ForcedOff)
            } else if same_text(text, "1") {
                Some(FlagEffect::ForcedOn)
            } else if same_text(text, letter) {
                Some(FlagEffect::Computed)
            } else {
                None
            },
            None => None,
        },
        None => None,
    }
}

fn read_effects(entry: &Value) -> (r: Option<FlagEffects>)
    ensures
        r == effects_of(member(json_of(*entry), "flags"@)),
{
    match json_member(entry, "flags") {
        Some(flags) => match (
            read_effect(flags, "Z"),
            read_effect(flags, "N"),
            read_effect(flags, "H"),
            read_effect(flags, "C"),
        ) {
            (Some(zero), Some(sub), Some(half_carry), Some(carry)) => Some(
                FlagEffects { zero, sub, half_carry, carry },
            ),
            _ => None,
        },
        None => None,
    }
}

fn read_switch(operand: &Value, name: &str) -> (r: Option<bool>)
    ensures
        r == switch_of(member(json_of(*operand), name@)),
{
    match json_member(operand, name) {
        None => Some(false),
        Some(switch) => json_bool(switch),
    }
}

fn read_operand(value: &Value) -> (r: Option<Operand>)
    ensures
        r == operand_of(json_of(*value)),
{
    let name = match json_member(value, "name") {
        Some(name) => match json_text(name) {
            Some(text) => OperandName::from_name(text),
            None => {
                return None;
            },
        },
        None => {
            return None;
        },
    };
    match (
        read_switch(value, "immediate"),
        read_switch(value, "increment"),
        read_switch(value, "decrement"),
    ) {
        (Some(immediate), Some(increment), Some(decrement)) => Some(
            Operand { name, immediate, increment, decrement },
        ),
        _ => None,
    }
}

fn read_operands(entry: &Value) -> (r: Option<Operands>)
    ensures
        r == operands_of(member(json_of(*entry), "operands"@)),
{
    let items = match json_member(entry, "operands") {
        Some(operands) => match json_elements(operands) {
            Some(items) => items,
            None => {
                return None;
            },
        },
        None => {
            return None;
        },
    };
    if items.len() == 0 {
        Some(Operands::Empty)
    } else if items.len() == 1 {
        match read_operand(&items[0]) {
            Some(a) => Some(Operands::One(a)),
            None => None,
        }
    } else if items.len() == 2 {
        match (read_operand(&items[0]), read_operand(&items[1])) {
            (Some(a), Some(b)) => Some(Operands::Two(a, b)),
            _ => None,
        }
    } else if items.len() == 3 {
        match (read_operand(&items[0]), read_operand(&items[1]), read_operand(&items[2])) {
            (Some(a), Some(b), Some(c)) => Some(Operands::Three(a, b, c)),
            _ => None,
        }
    } else {
        None
    }
}

fn read_mnemonic(entry: &Value) -> (r: Option<Mnemonic>)
    ensures
        r == mnemonic_of(member(json_of(*entry), "mnemonic"@)),
{
    match json_member(entry, "mnemonic") {
        Some(mnemonic) => match json_text(mnemonic) {
            Some(name) => if name.unicode_len() == 0 {
                None
            } else {
                Some(Mnemonic::from_name(name))
            },
            None => None,
        },
        None => None,
    }
}

fn read_length(entry: &Value) -> (r: Option<u8>)
    ensures
        r == length_of(member(json_of(*entry), "bytes"@)),
{
    match json_member(entry, "bytes") {
        Some(bytes) => match json_unsigned(bytes) {
            Some(length) => if length <= 255 {
                Some(length as u8)
            } else {
                None
            },
            None => None,
        },
        None => None,
    }
}

/// Reads one entry of a table.
pub fn read_entry(value: &Value) -> (r: Option<OpcodeDescriptor>)
    ensures
        r == entry_of(json_of(*value)),
{
    match (read_mnemonic(value), read_length(value), read_operands(value), read_effects(value)) {
        (Some(mnemonic), Some(bytes), Some(operands), Some(flags)) => Some(
            OpcodeDescriptor { mnemonic, bytes, operands, flags },
        ),
        _ => None,
    }
}

fn find_table<'a>(root: &'a Value, prefixed: bool) -> (r: Option<&'a Value>)
    ensures
        match r {
            Some(found) => table_of(json_of(*root), prefixed) == Some(json_of(*found)),
            None => table_of(json_of(*root), prefixed) is None,
        },
{
    let name = if prefixed {
        "cbprefixed"
    } else {
        "unprefixed"
    };
    match json_member(root, name) {
        Some(found) => if is_object(found) {
            Some(found)
        } else {
            None
        },
        None => None,
    }
}

fn read_table(json: &Value, prefixed: bool, table: &mut OpcodeTable) -> (r: Result<
    (),
    TableError,
>)
    requires
        forall|byte: u8| #[trigger] old(table).entry(prefixed, byte) is None,
    ensures
        match r {
            Ok(()) => first_malformed(json_of(*json), 0) is None && forall|byte: u8|
                slot_of(json_of(*json), byte) == Some(
                    #[trigger] final(table).entry(prefixed, byte),
                ),
            Err(e) => first_malformed(json_of(*json), 0) matches Some(byte) && e
                == TableError::MalformedEntry(prefixed, byte),
        },
        forall|other: bool, byte: u8|
            other != prefixed ==> #[trigger] final(table).entry(other, byte) == old(table).entry(
                other,
                byte,
            ),
{
    let mut i: usize = 0;
    while i < TABLE_SIZE
        invariant
            i <= TABLE_SIZE,
            first_malformed(json_of(*json), 0) == first_malformed(json_of(*json), i as int),
            forall|byte: u8|
                byte < i ==> slot_of(json_of(*json), byte) == Some(
                    #[trigger] table.entry(prefixed, byte),
                ),
            forall|byte: u8|
                byte >= i ==> #[trigger] table.entry(prefixed, byte) == old(table).entry(
                    prefixed,
                    byte,
                ),
            forall|other: bool, byte: u8|
                other != prefixed ==> #[trigger] table.entry(other, byte) == old(table).entry(
                    other,
                    byte,
                ),
            forall|byte: u8| byte >= i ==> #[trigger] old(table).entry(prefixed, byte) is None,
        decreases TABLE_SIZE - i,
    {
        let byte = i as u8;
        let key = make_key(byte);
        match json_member(json, key.as_str()) {
            None => {},
            Some(entry) => match read_entry(entry) {
                Some(descriptor) => {
                    table.insert(prefixed, byte, descriptor);
                },
                None => {
                    return Err(TableError::MalformedEntry(prefixed, byte));
                },
            },
        }
        i += 1;
    }
    Ok(())
}

/// Builds the catalogue that a parsed document describes. A document
/// without the two tables, or with a malformed entry, gives an error and
/// no catalogue.
pub fn table_from_json(root: &Value) -> (r: Result<OpcodeTable, TableError>)
    ensures
        match r {
            Ok(table) => catalogue_error(json_of(*root)) is None && holds_catalogue(
                table,
                json_of(*root),
            ),
            Err(e) => catalogue_error(json_of(*root)) == Some(e),
        },
{
    let plain = match find_table(root, false) {
        Some(plain) => plain,
        None => {
            return Err(TableError::MissingTable);
        },
    };
    let escaped = match find_table(root, true) {
        Some(escaped) => escaped,
        None => {
            return Err(TableError::MissingTable);
        },
    };
    let mut table = OpcodeTable::empty();
    match read_table(plain, false, &mut table) {
        Ok(()) => {},
        Err(e) => {
            return Err(e);
        },
    }
    match read_table(escaped, true, &mut table) {
        Ok(()) => {},
        Err(e) => {
            return Err(e);
        },
    }
    Ok(table)
}

/// Reads a catalogue from the text of a JSON document.
pub fn load_opcodes(text: &str) -> (r: Result<OpcodeTable, TableError>)
    ensures
        match json_parsed(text@) {
            None => r == Err::<OpcodeTable, TableError>(TableError::Syntax),
            Some(root) => match r {
                Ok(table) => catalogue_error(root) is None && holds_catalogue(table, root),
                Err(e) => catalogue_error(root) == Some(e),
            },
        },
{
    match parse_json(text) {
        Ok(root) => table_from_json(&root),
        Err(_) => Err(TableError::Syntax),
    }
}

} // verus!

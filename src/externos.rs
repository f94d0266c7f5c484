use vstd::prelude::*;

use crate::mensajes::hexadecimal;

verus! {

/// Milliseconds since the Unix epoch of the date-time that `texto` spells in
/// `formato`, read as UTC; `None` when `texto` does not match `formato`.
pub uninterp spec fn milisegundos_de_fecha(texto: Seq<char>, formato: Seq<char>) -> Option<i64>;

/// Relies on chrono's `NaiveDateTime::parse_from_str` to read `texto` in `formato`,
/// then on `and_utc` and `timestamp_millis` to turn the date-time into a plain
/// number; the outcome depends on the two strings alone.
#[verifier::external_body]
pub(crate) fn fecha_en_milisegundos(texto: &str, formato: &str) -> (r: Option<i64>)
    ensures
        r == milisegundos_de_fecha(texto@, formato@),
{
    match chrono::NaiveDateTime::parse_from_str(texto, formato) {
        Ok(fecha) => Some(fecha.and_utc().timestamp_millis()),
        Err(_) => None,
    }
}

/// Relies on `hex::encode`: each byte becomes two lower-case hexadecimal digits,
/// high nibble first, in the order of the bytes.
#[verifier::external_body]
pub(crate) fn hex_de(bytes: &[u8; 32]) -> (r: String)
    ensures
        r@ == hexadecimal(bytes@),
{
    hex::encode(bytes)
}

} // verus!

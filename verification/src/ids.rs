//! Identificadores nuevos (UUID v4, de `uuid`) y la hora actual (de
//! `chrono`).
use vstd::prelude::*;
use crate::numero::es_digito;

verus! {

pub open spec fn es_hex_minuscula(c: char) -> bool {
    ('0' <= c <= '9') || ('a' <= c <= 'f')
}

/// `s` tiene la forma de un UUID de versión 4 escrito por `uuid`: 36
/// caracteres, guiones en las posiciones 8, 13, 18 y 23, dígitos
/// hexadecimales en minúscula en las demás, la versión `4` en la posición 14
/// y la variante RFC 4122 (`8`, `9`, `a` o `b`) en la posición 19.
pub open spec fn es_uuid_v4(s: Seq<char>) -> bool {
    &&& s.len() == 36
    &&& forall|i: int|
        0 <= i < 36 ==> if i == 8 || i == 13 || i == 18 || i == 23 {
            #[trigger] s[i] == '-'
        } else {
            es_hex_minuscula(s[i])
        }
    &&& s[14] == '4'
    &&& (s[19] == '8' || s[19] == '9' || s[19] == 'a' || s[19] == 'b')
}

/// `s` termina con el desfase `+00:00` de una hora en UTC.
pub open spec fn termina_en_utc(s: Seq<char>) -> bool {
    &&& s.len() >= 6
    &&& s.subrange(s.len() - 6, s.len() as int) == seq!['+', '0', '0', ':', '0', '0']
}

/// El número de dos cifras `s[i]s[i + 1]`.
pub open spec fn dos_cifras(s: Seq<char>, i: int) -> int {
    ((s[i] as int) - ('0' as int)) * 10 + ((s[i + 1] as int) - ('0' as int))
}

/// `s[0..l]` es un año como lo escribe `chrono`: cuatro cifras, o `+`
/// seguido de cinco o más cifras (años desde 10000).
pub open spec fn es_anio(s: Seq<char>, l: int) -> bool {
    ||| l == 4 && s.len() >= 4 && forall|i: int| 0 <= i < 4 ==> es_digito(#[trigger] s[i])
    ||| l >= 6 && s.len() >= l && s[0] == '+' && forall|i: int|
        1 <= i < l ==> es_digito(#[trigger] s[i])
}

/// Los segundos fraccionarios de `to_rfc3339`: nada, o un punto seguido de
/// 3, 6 o 9 cifras.
pub open spec fn es_fraccion(f: Seq<char>) -> bool {
    ||| f.len() == 0
    ||| {
        &&& (f.len() == 4 || f.len() == 7 || f.len() == 10)
        &&& f[0] == '.'
        &&& forall|i: int| 1 <= i < f.len() ==> es_digito(#[trigger] f[i])
    }
}

/// Tras un año de `l` caracteres, `s` sigue con `-MM-DDTHH:MM:SS`, los
/// segundos fraccionarios y `+00:00`, con el mes entre 1 y 12, el día entre
/// 1 y 31, la hora entre 0 y 23 y los minutos y segundos entre 0 y 59.
pub open spec fn es_resto_rfc3339_utc(s: Seq<char>, l: int) -> bool {
    &&& l + 15 + 6 <= s.len()
    &&& s[l] == '-'
    &&& s[l + 3] == '-'
    &&& s[l + 6] == 'T'
    &&& s[l + 9] == ':'
    &&& s[l + 12] == ':'
    &&& forall|i: int|
        (l + 1 <= i <= l + 2 || l + 4 <= i <= l + 5 || l + 7 <= i <= l + 8 || l + 10 <= i <= l
            + 11 || l + 13 <= i <= l + 14) ==> es_digito(#[trigger] s[i])
    &&& 1 <= dos_cifras(s, l + 1) <= 12
    &&& 1 <= dos_cifras(s, l + 4) <= 31
    &&& dos_cifras(s, l + 7) <= 23
    &&& dos_cifras(s, l + 10) <= 59
    &&& dos_cifras(s, l + 13) <= 59
    &&& es_fraccion(s.subrange(l + 15, s.len() - 6))
    &&& termina_en_utc(s)
}

/// `s` es una fecha y hora UTC escrita por `DateTime::<Utc>::to_rfc3339`,
/// como `2026-08-16T10:04:05.123+00:00`.
pub open spec fn es_rfc3339_utc(s: Seq<char>) -> bool {
    exists|l: int| #[trigger] es_anio(s, l) && es_resto_rfc3339_utc(s, l)
}

/// Llama a `uuid::Uuid::new_v4` y escribe el resultado con `to_string`.
/// `new_v4` toma 122 bits al azar y fija la versión (4) y la variante; su
/// `Display` escribe la forma con guiones en minúscula. Se afirma esa forma
/// y nada del valor, que es aleatorio. `new_v4` falla si el sistema no da
/// bytes aleatorios.
#[verifier::external_body]
pub(crate) fn nuevo_id() -> (id: String)
    ensures
        es_uuid_v4(id@),
{
    uuid::Uuid::new_v4().to_string()
}

/// Llama a `chrono::Utc::now` y la escribe con `to_rfc3339`. La hora cambia
/// de una llamada a otra; se afirma la forma que `to_rfc3339` escribe para
/// UTC (`write_rfc3339` con `SecondsFormat::AutoSi` y sin `Z`): el año, mes,
/// día, hora, minutos y segundos de una fecha válida, las cifras
/// fraccionarias que no sean cero y el desfase `+00:00`. `Utc::now` da
/// nanosegundos menores que 10^9, así que no hay segundo 60, y una fecha
/// posterior a 1970. `Utc::now` falla si el reloj del sistema marca una hora
/// anterior a 1970.
#[verifier::external_body]
pub(crate) fn ahora() -> (s: String)
    ensures
        es_rfc3339_utc(s@),
{
    chrono::Utc::now().to_rfc3339()
}

} // verus!

//! Validación de los datos que llegan en las peticiones.
use vstd::prelude::*;
use crate::errors::{AppError, es_peticion_invalida, peticion_invalida};
use crate::numero::{es_flotante, es_numero_f64};
use crate::texto::{ley_recortado_idempotente, recortado, recortar};

verus! {

/// Un nombre es válido si le queda algo tras quitar los espacios de sus
/// extremos.
pub open spec fn nombre_valido(nombre: Seq<char>) -> bool {
    recortado(nombre).len() > 0
}

/// Una tarifa es válida si es un número que `f64` sabe leer.
pub open spec fn tarifa_valida(tarifa: Seq<char>) -> bool {
    es_flotante(tarifa)
}

/// El nombre sin los espacios de sus extremos, o el error si queda vacío.
pub fn validar_nombre(nombre: &str) -> (r: Result<String, AppError>)
    ensures
        match r {
            Ok(n) => nombre_valido(nombre@) && n@ == recortado(nombre@) && recortado(n@) == n@,
            Err(e) => !nombre_valido(nombre@) && es_peticion_invalida(
                e,
                "El nombre no puede estar vacío"@,
            ),
        },
{
    let n = recortar(nombre);
    proof {
        ley_recortado_idempotente(nombre@);
    }
    if n.as_str().is_empty() {
        Err(peticion_invalida("El nombre no puede estar vacío"))
    } else {
        Ok(n)
    }
}

/// `Ok` si la tarifa es válida; si no, un `BadRequest` con `mensaje`.
pub fn validar_tarifa(tarifa: &str, mensaje: &str) -> (r: Result<(), AppError>)
    ensures
        match r {
            Ok(()) => tarifa_valida(tarifa@),
            Err(e) => !tarifa_valida(tarifa@) && es_peticion_invalida(e, mensaje@),
        },
{
    if es_numero_f64(tarifa) {
        Ok(())
    } else {
        Err(peticion_invalida(mensaje))
    }
}

} // verus!

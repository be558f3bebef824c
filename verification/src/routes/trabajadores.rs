//! `/trabajadores`: alta, consulta y activación de trabajadores.
use vstd::prelude::*;
use crate::errors::{AppError, es_no_encontrado, es_peticion_invalida, no_encontrado};
use crate::ids::{ahora, es_rfc3339_utc, es_uuid_v4, nuevo_id};
use crate::models::{NuevoTrabajador, Trabajador};
use crate::texto::recortado;
use crate::validacion::{nombre_valido, validar_nombre};

verus! {

/// El trabajador que se da de alta con `body`, el identificador `id` y la
/// fecha `creado_en`: activo y con el nombre sin espacios en los extremos;
/// un `BadRequest` si el nombre queda vacío.
pub fn crear_con(body: &NuevoTrabajador, id: String, creado_en: String) -> (r: Result<
    Trabajador,
    AppError,
>)
    ensures
        match r {
            Ok(t) => {
                &&& nombre_valido(body.nombre@)
                &&& t.id == id
                &&& t.nombre@ == recortado(body.nombre@)
                &&& t.activo
                &&& t.creado_en == creado_en
            },
            Err(e) => !nombre_valido(body.nombre@) && es_peticion_invalida(
                e,
                "El nombre no puede estar vacío"@,
            ),
        },
{
    match validar_nombre(body.nombre.as_str()) {
        Ok(nombre) => Ok(Trabajador { id, nombre, activo: true, creado_en }),
        Err(e) => Err(e),
    }
}

/// Da de alta un trabajador con un identificador nuevo y la hora actual.
pub fn crear(body: &NuevoTrabajador) -> (r: Result<Trabajador, AppError>)
    ensures
        match r {
            Ok(t) => {
                &&& nombre_valido(body.nombre@)
                &&& es_uuid_v4(t.id@)
                &&& t.nombre@ == recortado(body.nombre@)
                &&& t.activo
                &&& es_rfc3339_utc(t.creado_en@)
            },
            Err(e) => !nombre_valido(body.nombre@) && es_peticion_invalida(
                e,
                "El nombre no puede estar vacío"@,
            ),
        },
{
    if let Err(e) = validar_nombre(body.nombre.as_str()) {
        return Err(e);
    }
    crear_con(body, nuevo_id(), ahora())
}

/// El trabajador buscado, o `NotFound` si no existe.
pub fn encontrado(fila: Option<Trabajador>) -> (r: Result<Trabajador, AppError>)
    ensures
        match fila {
            Some(t) => r == Ok::<Trabajador, AppError>(t),
            None => r matches Err(e) && es_no_encontrado(e, "Trabajador no encontrado"@),
        },
{
    match fila {
        Some(t) => Ok(t),
        None => Err(no_encontrado("Trabajador no encontrado")),
    }
}

} // verus!

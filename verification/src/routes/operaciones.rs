//! `/operaciones`: los tipos de trabajo y su tarifa por pieza.
use vstd::prelude::*;
use crate::consultas::{ACTUALIZAR_TARIFA, Consulta, actualizar_tarifa, es_texto};
use crate::errors::{AppError, es_no_encontrado, es_peticion_invalida, no_encontrado};
use crate::ids::{es_uuid_v4, nuevo_id};
use crate::models::{NuevaOperacion, Operacion};
use crate::texto::recortado;
use crate::validacion::{nombre_valido, tarifa_valida, validar_nombre, validar_tarifa};

verus! {

/// La operación que se crea con `body` y el identificador `id`: activa,
/// con el nombre sin espacios en los extremos y la tarifa tal como llegó.
/// Se rechaza primero un nombre vacío y después una tarifa que no es un
/// número.
pub fn crear_con(body: &NuevaOperacion, id: String) -> (r: Result<Operacion, AppError>)
    ensures
        match r {
            Ok(o) => {
                &&& nombre_valido(body.nombre@)
                &&& tarifa_valida(body.tarifa@)
                &&& o.id == id
                &&& o.nombre@ == recortado(body.nombre@)
                &&& o.tarifa@ == body.tarifa@
                &&& o.activa
            },
            Err(e) => if !nombre_valido(body.nombre@) {
                es_peticion_invalida(e, "El nombre no puede estar vacío"@)
            } else {
                !tarifa_valida(body.tarifa@) && es_peticion_invalida(
                    e,
                    "Tarifa inválida, debe ser un número"@,
                )
            },
        },
{
    let nombre = match validar_nombre(body.nombre.as_str()) {
        Ok(n) => n,
        Err(e) => return Err(e),
    };
    match validar_tarifa(body.tarifa.as_str(), "Tarifa inválida, debe ser un número") {
        Ok(()) => Ok(Operacion { id, nombre, tarifa: body.tarifa.clone(), activa: true }),
        Err(e) => Err(e),
    }
}

/// Crea una operación con un identificador nuevo.
pub fn crear(body: &NuevaOperacion) -> (r: Result<Operacion, AppError>)
    ensures
        match r {
            Ok(o) => {
                &&& nombre_valido(body.nombre@)
                &&& tarifa_valida(body.tarifa@)
                &&& es_uuid_v4(o.id@)
                &&& o.nombre@ == recortado(body.nombre@)
                &&& o.tarifa@ == body.tarifa@
                &&& o.activa
            },
            Err(e) => if !nombre_valido(body.nombre@) {
                es_peticion_invalida(e, "El nombre no puede estar vacío"@)
            } else {
                !tarifa_valida(body.tarifa@) && es_peticion_invalida(
                    e,
                    "Tarifa inválida, debe ser un número"@,
                )
            },
        },
{
    if let Err(e) = validar_nombre(body.nombre.as_str()) {
        return Err(e);
    }
    if let Err(e) = validar_tarifa(body.tarifa.as_str(), "Tarifa inválida, debe ser un número") {
        return Err(e);
    }
    crear_con(body, nuevo_id())
}

/// Antes de cambiar una tarifa: `Ok` si la nueva es un número; el nombre
/// del cuerpo no se mira.
pub fn validar_cambio_de_tarifa(body: &NuevaOperacion) -> (r: Result<(), AppError>)
    ensures
        match r {
            Ok(()) => tarifa_valida(body.tarifa@),
            Err(e) => !tarifa_valida(body.tarifa@) && es_peticion_invalida(e, "Tarifa inválida"@),
        },
{
    validar_tarifa(body.tarifa.as_str(), "Tarifa inválida")
}

/// El primer paso de `PUT /operaciones/:id`: la sentencia que cambia la
/// tarifa de `id`, o el error si la nueva tarifa no es un número, sin tocar
/// la base de datos.
pub fn cambiar_tarifa(id: &str, body: &NuevaOperacion) -> (r: Result<Consulta, AppError>)
    ensures
        match r {
            Ok(c) => {
                &&& tarifa_valida(body.tarifa@)
                &&& c.sql == ACTUALIZAR_TARIFA
                &&& c.parametros@.len() == 2
                &&& es_texto(c.parametros@[0], body.tarifa@)
                &&& es_texto(c.parametros@[1], id@)
            },
            Err(e) => !tarifa_valida(body.tarifa@) && es_peticion_invalida(e, "Tarifa inválida"@),
        },
{
    match validar_cambio_de_tarifa(body) {
        Ok(()) => Ok(actualizar_tarifa(id, body.tarifa.as_str())),
        Err(e) => Err(e),
    }
}

/// La operación buscada, o `NotFound` si no existe.
pub fn encontrada(fila: Option<Operacion>) -> (r: Result<Operacion, AppError>)
    ensures
        match fila {
            Some(o) => r == Ok::<Operacion, AppError>(o),
            None => r matches Err(e) && es_no_encontrado(e, "Operación no encontrada"@),
        },
{
    match fila {
        Some(o) => Ok(o),
        None => Err(no_encontrado("Operación no encontrada")),
    }
}

} // verus!

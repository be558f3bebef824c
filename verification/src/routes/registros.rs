//! `/registros`: la producción de cada trabajador.
use vstd::prelude::*;
use vstd::string::StringExecFns;
use crate::consultas::{
    Consulta, TARIFA_ACTIVA, es_listado_de_registros, es_texto, listar_registros, tarifa_activa,
};
use crate::errors::{AppError, es_no_encontrado, es_peticion_invalida, no_encontrado, peticion_invalida};
use crate::ids::{es_uuid_v4, nuevo_id};
use crate::models::{NuevoRegistro, Registro};

verus! {

/// Los filtros opcionales de `GET /registros`.
#[derive(Clone, Debug, PartialEq, Eq)]
pub struct FiltroFecha {
    pub fecha: Option<String>,
    pub trabajador_id: Option<String>,
}

/// La consulta de `GET /registros` para `filtro`.
pub fn listar(filtro: &FiltroFecha) -> (c: Consulta)
    ensures
        es_listado_de_registros(c, filtro.fecha, filtro.trabajador_id),
{
    listar_registros(&filtro.fecha, &filtro.trabajador_id)
}

/// `Ok` si la cantidad producida es positiva.
pub fn validar(body: &NuevoRegistro) -> (r: Result<(), AppError>)
    ensures
        match r {
            Ok(()) => body.cantidad > 0,
            Err(e) => body.cantidad <= 0 && es_peticion_invalida(
                e,
                "La cantidad debe ser mayor a 0"@,
            ),
        },
{
    if body.cantidad <= 0 {
        Err(peticion_invalida("La cantidad debe ser mayor a 0"))
    } else {
        Ok(())
    }
}

/// El primer paso de `POST /registros`: la consulta de la tarifa de la
/// operación, o el error si la cantidad no es positiva, sin tocar la base de
/// datos.
pub fn iniciar_creacion(body: &NuevoRegistro) -> (r: Result<Consulta, AppError>)
    ensures
        match r {
            Ok(c) => {
                &&& body.cantidad > 0
                &&& c.sql == TARIFA_ACTIVA
                &&& c.parametros@.len() == 1
                &&& es_texto(c.parametros@[0], body.operacion_id@)
            },
            Err(e) => body.cantidad <= 0 && es_peticion_invalida(
                e,
                "La cantidad debe ser mayor a 0"@,
            ),
        },
{
    match validar(body) {
        Ok(()) => Ok(tarifa_activa(body.operacion_id.as_str())),
        Err(e) => Err(e),
    }
}

/// La tarifa de la operación del registro, o `NotFound` si la operación no
/// existe o no está activa.
pub fn tarifa_encontrada(tarifa: Option<String>) -> (r: Result<String, AppError>)
    ensures
        match tarifa {
            Some(t) => r == Ok::<String, AppError>(t),
            None => r matches Err(e) && es_no_encontrado(
                e,
                "Operación no encontrada o inactiva"@,
            ),
        },
{
    match tarifa {
        Some(t) => Ok(t),
        None => Err(no_encontrado("Operación no encontrada o inactiva")),
    }
}

/// `a` y `b` tienen el mismo texto, o los dos faltan.
pub open spec fn mismo_texto_opcional(a: Option<String>, b: Option<String>) -> bool {
    match (a, b) {
        (Some(x), Some(y)) => x@ == y@,
        (None, None) => true,
        _ => false,
    }
}

/// El registro de `body` con el identificador `id` y el pago `total`.
pub fn crear_con(body: &NuevoRegistro, id: String, total: String) -> (r: Registro)
    ensures
        r.id == id,
        r.trabajador_id@ == body.trabajador_id@,
        r.operacion_id@ == body.operacion_id@,
        r.cantidad == body.cantidad,
        r.total == total,
        r.fecha@ == body.fecha@,
        mismo_texto_opcional(r.notas, body.notas),
{
    let notas = match &body.notas {
        Some(n) => Some(n.clone()),
        None => None,
    };
    Registro {
        id,
        trabajador_id: body.trabajador_id.clone(),
        operacion_id: body.operacion_id.clone(),
        cantidad: body.cantidad,
        total,
        fecha: body.fecha.clone(),
        notas,
    }
}

/// El registro de `body` con un identificador nuevo y el pago `total`.
pub fn crear(body: &NuevoRegistro, total: String) -> (r: Registro)
    ensures
        es_uuid_v4(r.id@),
        r.trabajador_id@ == body.trabajador_id@,
        r.operacion_id@ == body.operacion_id@,
        r.cantidad == body.cantidad,
        r.total == total,
        r.fecha@ == body.fecha@,
        mismo_texto_opcional(r.notas, body.notas),
{
    crear_con(body, nuevo_id(), total)
}

/// Tras borrar: el mensaje de éxito si se borró alguna fila, o `NotFound`.
pub fn eliminado(filas_afectadas: u64) -> (r: Result<String, AppError>)
    ensures
        match r {
            Ok(m) => filas_afectadas > 0 && m@ == "Registro eliminado"@,
            Err(e) => filas_afectadas == 0 && es_no_encontrado(e, "Registro no encontrado"@),
        },
{
    if filas_afectadas == 0 {
        Err(no_encontrado("Registro no encontrado"))
    } else {
        Ok(String::from_str("Registro eliminado"))
    }
}

} // verus!

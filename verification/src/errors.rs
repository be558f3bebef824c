//! Los errores de la API y la respuesta HTTP que corresponde a cada uno.
use vstd::prelude::*;
use vstd::string::StringExecFns;

verus! {

/// Un error de una petición. Los de base de datos y los internos llevan la
/// descripción del fallo, que se registra en el log y no se envía al
/// cliente.
#[derive(Debug)]
pub enum AppError {
    NotFound(String),
    BadRequest(String),
    Database(String),
    Internal(String),
}

pub open spec fn mensaje_base_de_datos() -> Seq<char> {
    "Error de base de datos"@
}

pub open spec fn mensaje_interno() -> Seq<char> {
    "Error interno"@
}

/// El código de estado HTTP y el mensaje que se envían para `e`.
pub open spec fn respuesta_de(e: AppError) -> (u16, Seq<char>) {
    match e {
        AppError::NotFound(m) => (404, m@),
        AppError::BadRequest(m) => (400, m@),
        AppError::Database(_) => (500, mensaje_base_de_datos()),
        AppError::Internal(_) => (500, mensaje_interno()),
    }
}

/// Un error de la base de datos o interno se responde con 500 y un mensaje
/// fijo, sea cual sea su detalle: el detalle no llega al cliente.
pub proof fn ley_errores_del_servidor_ocultan_el_detalle(a: String, b: String)
    ensures
        respuesta_de(AppError::Database(a)) == respuesta_de(AppError::Database(b)),
        respuesta_de(AppError::Internal(a)) == respuesta_de(AppError::Internal(b)),
        respuesta_de(AppError::Database(a)).0 == 500,
        respuesta_de(AppError::Internal(a)).0 == 500,
{
}

/// `e` es un `NotFound` con el mensaje `m`.
pub open spec fn es_no_encontrado(e: AppError, m: Seq<char>) -> bool {
    e matches AppError::NotFound(x) && x@ == m
}

/// `e` es un `BadRequest` con el mensaje `m`.
pub open spec fn es_peticion_invalida(e: AppError, m: Seq<char>) -> bool {
    e matches AppError::BadRequest(x) && x@ == m
}

/// Un `NotFound` con el mensaje `m`.
pub fn no_encontrado(m: &str) -> (e: AppError)
    ensures
        es_no_encontrado(e, m@),
{
    AppError::NotFound(String::from_str(m))
}

/// Un `BadRequest` con el mensaje `m`.
pub fn peticion_invalida(m: &str) -> (e: AppError)
    ensures
        es_peticion_invalida(e, m@),
{
    AppError::BadRequest(String::from_str(m))
}

impl AppError {
    /// El código de estado HTTP y el mensaje del cuerpo `{"error": ...}`.
    pub fn respuesta(&self) -> (r: (u16, String))
        ensures
            (r.0, r.1@) == respuesta_de(*self),
    {
        match self {
            AppError::NotFound(m) => (404, m.clone()),
            AppError::BadRequest(m) => (400, m.clone()),
            AppError::Database(_) => (500, String::from_str("Error de base de datos")),
            AppError::Internal(_) => (500, String::from_str("Error interno")),
        }
    }
}

} // verus!

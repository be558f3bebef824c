//! Reglas de la API de pago por destajo de una fábrica de calzado: los
//! datos, su validación, las consultas a la base de datos y las respuestas
//! de error.
pub mod consultas;
pub mod errors;
pub mod ids;
pub mod models;
pub mod numero;
pub mod routes;
pub mod texto;
pub mod validacion;

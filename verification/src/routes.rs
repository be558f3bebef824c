//! Lo que decide cada recurso de la API, sin la entrada y salida: qué se
//! valida, qué se guarda y qué se responde con lo que la base de datos
//! devuelve.
pub mod operaciones;
pub mod registros;
pub mod reportes;
pub mod trabajadores;

//! Los datos que la API guarda y devuelve.
use vstd::prelude::*;

verus! {

/// Una persona que trabaja a destajo.
#[derive(Clone, Debug, PartialEq, Eq)]
pub struct Trabajador {
    pub id: String,
    pub nombre: String,
    pub activo: bool,
    pub creado_en: String,
}

/// El cuerpo de la petición que da de alta a un trabajador.
#[derive(Clone, Debug, PartialEq, Eq)]
pub struct NuevoTrabajador {
    pub nombre: String,
}

/// Un tipo de trabajo y lo que se paga por pieza.
#[derive(Clone, Debug, PartialEq, Eq)]
pub struct Operacion {
    pub id: String,
    pub nombre: String,
    /// La tarifa por pieza, en texto (por ejemplo `"12.50"`).
    pub tarifa: String,
    pub activa: bool,
}

/// El cuerpo de la petición que crea una operación o cambia su tarifa.
#[derive(Clone, Debug, PartialEq, Eq)]
pub struct NuevaOperacion {
    pub nombre: String,
    pub tarifa: String,
}

/// Lo que un trabajador produjo de una operación en una fecha.
#[derive(Clone, Debug, PartialEq, Eq)]
pub struct Registro {
    pub id: String,
    pub trabajador_id: String,
    pub operacion_id: String,
    pub cantidad: i64,
    /// El pago del registro, con dos decimales.
    pub total: String,
    pub fecha: String,
    pub notas: Option<String>,
}

/// El cuerpo de la petición que registra producción.
#[derive(Clone, Debug, PartialEq, Eq)]
pub struct NuevoRegistro {
    pub trabajador_id: String,
    pub operacion_id: String,
    pub cantidad: i64,
    pub fecha: String,
    pub notas: Option<String>,
}

/// Una fila de un reporte: lo producido y ganado por un trabajador.
#[derive(Clone, Debug, PartialEq, Eq)]
pub struct ResumenTrabajador {
    pub trabajador_id: String,
    pub nombre: String,
    pub total_piezas: i64,
    pub total_pago: String,
}

} // verus!

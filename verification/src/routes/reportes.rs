//! `/reportes`: piezas y pago por trabajador en un día o una quincena.
use vstd::prelude::*;
use crate::consultas::{Consulta, REPORTE_DIA, REPORTE_QUINCENA, es_texto, reporte_dia, reporte_quincena};
use crate::models::ResumenTrabajador;

verus! {

/// Las fechas de `GET /reportes/quincena`, las dos incluidas.
#[derive(Clone, Debug, PartialEq, Eq)]
pub struct RangoFecha {
    pub desde: String,
    pub hasta: String,
}

/// La fecha de `GET /reportes/dia`.
#[derive(Clone, Debug, PartialEq, Eq)]
pub struct FiltroDia {
    pub fecha: String,
}

/// Una fila de la consulta de un reporte. `total_piezas` falta cuando la
/// suma no tiene filas; `total_pago` es la suma de los pagos ya escrita con
/// dos decimales.
#[derive(Clone, Debug, PartialEq, Eq)]
pub struct FilaReporte {
    pub trabajador_id: String,
    pub nombre: String,
    pub total_piezas: Option<i64>,
    pub total_pago: String,
}

/// La consulta de `GET /reportes/quincena`.
pub fn consulta_quincena(rango: &RangoFecha) -> (c: Consulta)
    ensures
        c.sql == REPORTE_QUINCENA,
        c.parametros@.len() == 2,
        es_texto(c.parametros@[0], rango.desde@),
        es_texto(c.parametros@[1], rango.hasta@),
{
    reporte_quincena(rango.desde.as_str(), rango.hasta.as_str())
}

/// La consulta de `GET /reportes/dia`.
pub fn consulta_dia(filtro: &FiltroDia) -> (c: Consulta)
    ensures
        c.sql == REPORTE_DIA,
        c.parametros@.len() == 1,
        es_texto(c.parametros@[0], filtro.fecha@),
{
    reporte_dia(filtro.fecha.as_str())
}

/// El resumen de una fila: sin piezas sumadas cuenta 0.
pub open spec fn es_resumen_de(r: ResumenTrabajador, f: FilaReporte) -> bool {
    &&& r.trabajador_id@ == f.trabajador_id@
    &&& r.nombre@ == f.nombre@
    &&& r.total_piezas == match f.total_piezas {
        Some(n) => n,
        None => 0,
    }
    &&& r.total_pago@ == f.total_pago@
}

/// El resumen de la fila `f`.
pub fn resumen(f: &FilaReporte) -> (r: ResumenTrabajador)
    ensures
        es_resumen_de(r, *f),
        f.total_piezas matches Some(n) ==> r.total_piezas == n,
        f.total_piezas is None ==> r.total_piezas == 0,
{
    ResumenTrabajador {
        trabajador_id: f.trabajador_id.clone(),
        nombre: f.nombre.clone(),
        total_piezas: match f.total_piezas {
            Some(n) => n,
            None => 0,
        },
        total_pago: f.total_pago.clone(),
    }
}

/// Los resúmenes de las filas, en el mismo orden.
pub fn resumenes(filas: &Vec<FilaReporte>) -> (r: Vec<ResumenTrabajador>)
    ensures
        r@.len() == filas@.len(),
        forall|i: int| 0 <= i < filas@.len() ==> es_resumen_de(#[trigger] r@[i], filas@[i]),
        forall|i: int|
            0 <= i < filas@.len() ==> (filas@[i].total_piezas matches Some(n) ==> (
            #[trigger] r@[i]).total_piezas == n),
{
    let mut r: Vec<ResumenTrabajador> = Vec::new();
    for i in 0..filas.len()
        invariant
            r@.len() == i,
            forall|k: int| 0 <= k < i ==> es_resumen_de(#[trigger] r@[k], filas@[k]),
            forall|k: int|
                0 <= k < i ==> (filas@[k].total_piezas matches Some(n) ==> (
                #[trigger] r@[k]).total_piezas == n),
    {
        r.push(resumen(&filas[i]));
    }
    r
}

/// Un resumen lleva la fila sin cambios: el mismo trabajador, su nombre y su
/// pago, y exactamente las piezas sumadas, cualquiera que sea ese número de
/// `i64`; 0 solo cuando la suma falta.
pub proof fn ley_resumen_conserva_la_fila(r: ResumenTrabajador, f: FilaReporte)
    requires
        es_resumen_de(r, f),
    ensures
        forall|n: i64| f.total_piezas == Some(n) ==> r.total_piezas == n,
        f.total_piezas is None ==> r.total_piezas == 0,
        r.trabajador_id@ == f.trabajador_id@,
        r.nombre@ == f.nombre@,
        r.total_pago@ == f.total_pago@,
{
}

} // verus!

//! Las sentencias SQL de la API y los valores que se enlazan a sus `?`.
use vstd::prelude::*;
use vstd::string::StringExecFns;
use crate::models::{Trabajador, Operacion, Registro};

verus! {

/// Un valor enlazado a un `?` de una sentencia.
#[derive(Clone, Debug, PartialEq, Eq)]
pub enum Valor {
    Texto(String),
    Entero(i64),
    Nulo,
}

/// Una sentencia SQL y sus valores, en el orden de sus `?`.
pub struct Consulta {
    pub sql: &'static str,
    pub parametros: Vec<Valor>,
}

/// El valor es el texto `s`.
pub open spec fn es_texto(v: Valor, s: Seq<char>) -> bool {
    v matches Valor::Texto(t) && t@ == s
}

/// El valor de un texto opcional: el texto, o `NULL`.
pub open spec fn es_opcional(v: Valor, s: Option<String>) -> bool {
    match s {
        Some(t) => es_texto(v, t@),
        None => v is Nulo,
    }
}

pub const ESQUEMA: &'static str = "
        CREATE TABLE IF NOT EXISTS trabajadores (
            id          TEXT PRIMARY KEY,
            nombre      TEXT NOT NULL,
            activo      INTEGER NOT NULL DEFAULT 1,
            creado_en   TEXT NOT NULL
        );

        CREATE TABLE IF NOT EXISTS operaciones (
            id          TEXT PRIMARY KEY,
            nombre      TEXT NOT NULL,
            tarifa      TEXT NOT NULL,   -- decimal como texto para evitar errores de punto flotante
            activa      INTEGER NOT NULL DEFAULT 1
        );

        CREATE TABLE IF NOT EXISTS registros (
            id              TEXT PRIMARY KEY,
            trabajador_id   TEXT NOT NULL REFERENCES trabajadores(id),
            operacion_id    TEXT NOT NULL REFERENCES operaciones(id),
            cantidad        INTEGER NOT NULL,
            total           TEXT NOT NULL,   -- decimal como texto
            fecha           TEXT NOT NULL,
            notas           TEXT
        );
        ";

pub const LISTAR_TRABAJADORES: &'static str =
    "SELECT id, nombre, activo, creado_en FROM trabajadores ORDER BY nombre";

pub const INSERTAR_TRABAJADOR: &'static str =
    "INSERT INTO trabajadores (id, nombre, activo, creado_en) VALUES (?, ?, 1, ?)";

pub const BUSCAR_TRABAJADOR: &'static str =
    "SELECT id, nombre, activo, creado_en FROM trabajadores WHERE id = ?";

pub const ALTERNAR_TRABAJADOR: &'static str =
    "UPDATE trabajadores SET activo = NOT activo WHERE id = ?";

pub const LISTAR_OPERACIONES: &'static str =
    "SELECT id, nombre, tarifa, activa FROM operaciones ORDER BY nombre";

pub const INSERTAR_OPERACION: &'static str =
    "INSERT INTO operaciones (id, nombre, tarifa, activa) VALUES (?, ?, ?, 1)";

pub const BUSCAR_OPERACION: &'static str =
    "SELECT id, nombre, tarifa, activa FROM operaciones WHERE id = ?";

pub const ACTUALIZAR_TARIFA: &'static str = "UPDATE operaciones SET tarifa = ? WHERE id = ?";

pub const TARIFA_ACTIVA: &'static str =
    "SELECT tarifa FROM operaciones WHERE id = ? AND activa = 1";

pub const REGISTROS_POR_FECHA_Y_TRABAJADOR: &'static str =
    "SELECT id, trabajador_id, operacion_id, cantidad, total, fecha, notas
                 FROM registros WHERE fecha = ? AND trabajador_id = ? ORDER BY fecha DESC";

pub const REGISTROS_POR_FECHA: &'static str =
    "SELECT id, trabajador_id, operacion_id, cantidad, total, fecha, notas
                 FROM registros WHERE fecha = ? ORDER BY fecha DESC";

pub const REGISTROS_POR_TRABAJADOR: &'static str =
    "SELECT id, trabajador_id, operacion_id, cantidad, total, fecha, notas
                 FROM registros WHERE trabajador_id = ? ORDER BY fecha DESC";

pub const REGISTROS_RECIENTES: &'static str =
    "SELECT id, trabajador_id, operacion_id, cantidad, total, fecha, notas
                 FROM registros ORDER BY fecha DESC LIMIT 100";

pub const INSERTAR_REGISTRO: &'static str =
    "INSERT INTO registros (id, trabajador_id, operacion_id, cantidad, total, fecha, notas)
         VALUES (?, ?, ?, ?, ?, ?, ?)";

pub const BUSCAR_REGISTRO: &'static str =
    "SELECT id, trabajador_id, operacion_id, cantidad, total, fecha, notas
         FROM registros WHERE id = ?";

pub const ELIMINAR_REGISTRO: &'static str = "DELETE FROM registros WHERE id = ?";

pub const REPORTE_QUINCENA: &'static str = "
        SELECT
            t.id   AS trabajador_id,
            t.nombre,
            SUM(r.cantidad) AS total_piezas,
            SUM(CAST(r.total AS REAL)) AS total_pago
        FROM registros r
        JOIN trabajadores t ON t.id = r.trabajador_id
        WHERE r.fecha BETWEEN ? AND ?
        GROUP BY t.id, t.nombre
        ORDER BY t.nombre
        ";

pub const REPORTE_DIA: &'static str = "
        SELECT
            t.id   AS trabajador_id,
            t.nombre,
            SUM(r.cantidad) AS total_piezas,
            SUM(CAST(r.total AS REAL)) AS total_pago
        FROM registros r
        JOIN trabajadores t ON t.id = r.trabajador_id
        WHERE r.fecha = ?
        GROUP BY t.id, t.nombre
        ORDER BY t.nombre
        ";

fn texto(s: &str) -> (v: Valor)
    ensures
        es_texto(v, s@),
{
    Valor::Texto(String::from_str(s))
}

/// Crea las tablas que falten.
pub fn crear_esquema() -> (c: Consulta)
    ensures
        c.sql == ESQUEMA,
        c.parametros@.len() == 0,
{
    Consulta { sql: ESQUEMA, parametros: Vec::new() }
}

/// Una sentencia sin parámetros.
fn sin_parametros(sql: &'static str) -> (c: Consulta)
    ensures
        c.sql == sql,
        c.parametros@.len() == 0,
{
    Consulta { sql, parametros: Vec::new() }
}

/// Una sentencia con un solo parámetro de texto.
fn con_texto(sql: &'static str, s: &str) -> (c: Consulta)
    ensures
        c.sql == sql,
        c.parametros@.len() == 1,
        es_texto(c.parametros@[0], s@),
{
    let mut parametros: Vec<Valor> = Vec::new();
    parametros.push(texto(s));
    Consulta { sql, parametros }
}

/// Una sentencia con dos parámetros de texto.
fn con_dos_textos(sql: &'static str, a: &str, b: &str) -> (c: Consulta)
    ensures
        c.sql == sql,
        c.parametros@.len() == 2,
        es_texto(c.parametros@[0], a@),
        es_texto(c.parametros@[1], b@),
{
    let mut parametros: Vec<Valor> = Vec::new();
    parametros.push(texto(a));
    parametros.push(texto(b));
    Consulta { sql, parametros }
}

/// Todos los trabajadores, por nombre.
pub fn listar_trabajadores() -> (c: Consulta)
    ensures
        c.sql == LISTAR_TRABAJADORES,
        c.parametros@.len() == 0,
{
    sin_parametros(LISTAR_TRABAJADORES)
}

/// Guarda `t` como trabajador activo.
pub fn insertar_trabajador(t: &Trabajador) -> (c: Consulta)
    ensures
        c.sql == INSERTAR_TRABAJADOR,
        c.parametros@.len() == 3,
        es_texto(c.parametros@[0], t.id@),
        es_texto(c.parametros@[1], t.nombre@),
        es_texto(c.parametros@[2], t.creado_en@),
{
    let mut parametros: Vec<Valor> = Vec::new();
    parametros.push(texto(t.id.as_str()));
    parametros.push(texto(t.nombre.as_str()));
    parametros.push(texto(t.creado_en.as_str()));
    Consulta { sql: INSERTAR_TRABAJADOR, parametros }
}

/// El trabajador con identificador `id`.
pub fn buscar_trabajador(id: &str) -> (c: Consulta)
    ensures
        c.sql == BUSCAR_TRABAJADOR,
        c.parametros@.len() == 1,
        es_texto(c.parametros@[0], id@),
{
    con_texto(BUSCAR_TRABAJADOR, id)
}

/// Activa al trabajador `id` si estaba inactivo, y lo desactiva si estaba
/// activo.
pub fn alternar_trabajador(id: &str) -> (c: Consulta)
    ensures
        c.sql == ALTERNAR_TRABAJADOR,
        c.parametros@.len() == 1,
        es_texto(c.parametros@[0], id@),
{
    con_texto(ALTERNAR_TRABAJADOR, id)
}

/// Todas las operaciones, por nombre.
pub fn listar_operaciones() -> (c: Consulta)
    ensures
        c.sql == LISTAR_OPERACIONES,
        c.parametros@.len() == 0,
{
    sin_parametros(LISTAR_OPERACIONES)
}

/// Guarda `o` como operación activa.
pub fn insertar_operacion(o: &Operacion) -> (c: Consulta)
    ensures
        c.sql == INSERTAR_OPERACION,
        c.parametros@.len() == 3,
        es_texto(c.parametros@[0], o.id@),
        es_texto(c.parametros@[1], o.nombre@),
        es_texto(c.parametros@[2], o.tarifa@),
{
    let mut parametros: Vec<Valor> = Vec::new();
    parametros.push(texto(o.id.as_str()));
    parametros.push(texto(o.nombre.as_str()));
    parametros.push(texto(o.tarifa.as_str()));
    Consulta { sql: INSERTAR_OPERACION, parametros }
}

/// La operación con identificador `id`.
pub fn buscar_operacion(id: &str) -> (c: Consulta)
    ensures
        c.sql == BUSCAR_OPERACION,
        c.parametros@.len() == 1,
        es_texto(c.parametros@[0], id@),
{
    con_texto(BUSCAR_OPERACION, id)
}

/// Cambia la tarifa de la operación `id` por `tarifa`.
pub fn actualizar_tarifa(id: &str, tarifa: &str) -> (c: Consulta)
    ensures
        c.sql == ACTUALIZAR_TARIFA,
        c.parametros@.len() == 2,
        es_texto(c.parametros@[0], tarifa@),
        es_texto(c.parametros@[1], id@),
{
    con_dos_textos(ACTUALIZAR_TARIFA, tarifa, id)
}

/// La tarifa de la operación `id`, si existe y está activa.
pub fn tarifa_activa(id: &str) -> (c: Consulta)
    ensures
        c.sql == TARIFA_ACTIVA,
        c.parametros@.len() == 1,
        es_texto(c.parametros@[0], id@),
{
    con_texto(TARIFA_ACTIVA, id)
}

/// Guarda el registro `r`.
pub fn insertar_registro(r: &Registro) -> (c: Consulta)
    ensures
        c.sql == INSERTAR_REGISTRO,
        c.parametros@.len() == 7,
        es_texto(c.parametros@[0], r.id@),
        es_texto(c.parametros@[1], r.trabajador_id@),
        es_texto(c.parametros@[2], r.operacion_id@),
        c.parametros@[3] == Valor::Entero(r.cantidad),
        es_texto(c.parametros@[4], r.total@),
        es_texto(c.parametros@[5], r.fecha@),
        es_opcional(c.parametros@[6], r.notas),
{
    let mut parametros: Vec<Valor> = Vec::new();
    parametros.push(texto(r.id.as_str()));
    parametros.push(texto(r.trabajador_id.as_str()));
    parametros.push(texto(r.operacion_id.as_str()));
    parametros.push(Valor::Entero(r.cantidad));
    parametros.push(texto(r.total.as_str()));
    parametros.push(texto(r.fecha.as_str()));
    let notas = match &r.notas {
        Some(n) => texto(n.as_str()),
        None => Valor::Nulo,
    };
    parametros.push(notas);
    Consulta { sql: INSERTAR_REGISTRO, parametros }
}

/// El registro con identificador `id`.
pub fn buscar_registro(id: &str) -> (c: Consulta)
    ensures
        c.sql == BUSCAR_REGISTRO,
        c.parametros@.len() == 1,
        es_texto(c.parametros@[0], id@),
{
    con_texto(BUSCAR_REGISTRO, id)
}

/// Borra el registro `id`.
pub fn eliminar_registro(id: &str) -> (c: Consulta)
    ensures
        c.sql == ELIMINAR_REGISTRO,
        c.parametros@.len() == 1,
        es_texto(c.parametros@[0], id@),
{
    con_texto(ELIMINAR_REGISTRO, id)
}

/// `c` lista los registros filtrados por `fecha` y `trabajador_id`, los que
/// se den.
pub open spec fn es_listado_de_registros(
    c: Consulta,
    fecha: Option<String>,
    trabajador_id: Option<String>,
) -> bool {
    match (fecha, trabajador_id) {
        (Some(f), Some(t)) => {
            &&& c.sql == REGISTROS_POR_FECHA_Y_TRABAJADOR
            &&& c.parametros@.len() == 2
            &&& es_texto(c.parametros@[0], f@)
            &&& es_texto(c.parametros@[1], t@)
        },
        (Some(f), None) => {
            &&& c.sql == REGISTROS_POR_FECHA
            &&& c.parametros@.len() == 1
            &&& es_texto(c.parametros@[0], f@)
        },
        (None, Some(t)) => {
            &&& c.sql == REGISTROS_POR_TRABAJADOR
            &&& c.parametros@.len() == 1
            &&& es_texto(c.parametros@[0], t@)
        },
        (None, None) => {
            &&& c.sql == REGISTROS_RECIENTES
            &&& c.parametros@.len() == 0
        },
    }
}

/// Los registros, de la fecha más reciente a la más antigua: los de la
/// fecha y el trabajador que se den; sin filtro, los últimos 100.
pub fn listar_registros(fecha: &Option<String>, trabajador_id: &Option<String>) -> (c: Consulta)
    ensures
        es_listado_de_registros(c, *fecha, *trabajador_id),
{
    match (fecha, trabajador_id) {
        (Some(f), Some(t)) => con_dos_textos(REGISTROS_POR_FECHA_Y_TRABAJADOR, f.as_str(), t.as_str()),
        (Some(f), None) => con_texto(REGISTROS_POR_FECHA, f.as_str()),
        (None, Some(t)) => con_texto(REGISTROS_POR_TRABAJADOR, t.as_str()),
        (None, None) => sin_parametros(REGISTROS_RECIENTES),
    }
}

/// Piezas y pago de cada trabajador con registros entre `desde` y `hasta`
/// (ambas incluidas), por nombre.
pub fn reporte_quincena(desde: &str, hasta: &str) -> (c: Consulta)
    ensures
        c.sql == REPORTE_QUINCENA,
        c.parametros@.len() == 2,
        es_texto(c.parametros@[0], desde@),
        es_texto(c.parametros@[1], hasta@),
{
    con_dos_textos(REPORTE_QUINCENA, desde, hasta)
}

/// Piezas y pago de cada trabajador con registros en `fecha`, por nombre.
pub fn reporte_dia(fecha: &str) -> (c: Consulta)
    ensures
        c.sql == REPORTE_DIA,
        c.parametros@.len() == 1,
        es_texto(c.parametros@[0], fecha@),
{
    con_texto(REPORTE_DIA, fecha)
}

} // verus!

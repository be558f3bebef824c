# destajo

Reglas de una API REST de pago por destajo para una fábrica de calzado:
trabajadores, operaciones con su tarifa por pieza, registros de producción y
reportes por día o por quincena.

- `src/` es la biblioteca verificada con Verus:
  - `models`: los datos que se guardan y se devuelven;
  - `texto`: recorte de espacios en blanco (como `str::trim`);
  - `numero`: los textos que `str::parse::<f64>` acepta, según la gramática
    de su documentación;
  - `validacion`: nombres no vacíos y tarifas numéricas;
  - `errors`: los errores y su respuesta HTTP;
  - `consultas`: las sentencias SQL y los valores de sus parámetros;
  - `ids`: identificadores UUID v4 y la hora actual en UTC;
  - `routes`: lo que decide cada recurso con lo que la base de datos devuelve.
- `app/` es el servidor (Axum, SQLite con sqlx): recibe las peticiones, ejecuta
  las consultas y calcula los pagos en punto flotante.
- `tests/` prueba la biblioteca.

# Iskandar

Integración de ERPs de América Latina, con su lógica verificada en Verus.

Iskandar expone ERPs heredados (hoy, Microsip) detrás de una interfaz
universal. La biblioteca dice qué hacer y qué concluir; el programa que la
rodea carga la biblioteca nativa, habla HTTP y lee archivos.

## Cómo está organizado

- `src/models/`: los modelos universales. El dinero va en decimales exactos
  (`src/decimal.rs`); los identificadores pueden ser enteros o textos.
- `src/provider.rs`, `src/client.rs`, `src/registry.rs`, `src/catalogo.rs`:
  qué anuncia un provider y cómo se llega a sus módulos.
- `src/security.rs`, `src/reporte.rs`: la auditoría de un sistema antes de
  conectarse a él, y su reporte.
- `src/microsip/`: el provider Microsip.
  - `guiones/`: qué llamadas nativas hace cada operación, en qué orden y con
    qué argumentos.
  - `maquina.rs`: la máquina que recorre un guion; `leyes.rs`, `exito.rs` y
    `corridas.rs`, lo que vale de toda ejecución; `conexiones.rs`, que toda
    conexión que se abre se cierra; `sesion.rs`, lo que vale de una sucesión
    de altas.
  - `facturas.rs`, `cxc.rs`, `clientes.rs`, `articulos.rs`, `security.rs`,
    `provider.rs`: del modelo universal a la API nativa y de vuelta.
- `src/api.rs`, `src/arranque.rs`, `src/cli.rs`, `src/esquema.rs`: lo que
  deciden el servidor y la línea de comandos.
- `app/`: el programa: argumentos, archivos, HTTP y la llamada a
  `ApiMicrosip.dll`.
- `tests/`: pruebas sobre valores concretos, con una biblioteca nativa
  simulada.

Las funciones públicas de prueba (`ley_*`) enuncian lo que vale de la
biblioteca entera: que un documento a medias siempre se aborta, que el error
original es el que se informa, que el identificador se pide antes de aplicar,
que la puerta de seguridad no se abre con una firma.

use iskandar::microsip::articulos::{map_row as map_articulo, ArticulosMicrosip};
use iskandar::microsip::clientes::{map_row as map_cliente, ClientesMicrosip};
use iskandar::microsip::config::MicrosipConfig;
use iskandar::microsip::cxc::{map_credito_row, CxcMicrosip};
use iskandar::microsip::facturas::{
    fecha_field, fecha_o_error, map_factura_row, monto_field, FacturasMicrosip,
};
use iskandar::microsip::fila::RowReader;
use iskandar::microsip::guiones::consulta::{Campo, Consulta};
use iskandar::microsip::provider::{
    columna_row, muestra_row, tabla_row, tipo_firebird, valor_row, MicrosipProvider,
};
use iskandar::models::clientes::{FiltroClientes, NuevoCliente};
use iskandar::models::common::{EntidadId, Pais};
use iskandar::models::inventario::{FiltroArticulos, NuevaEntrada, NuevaSalida};
use iskandar::provider::ERPProvider;

fn config() -> MicrosipConfig {
    MicrosipConfig {
        dll_path: "a.dll".to_string(),
        db_path: "SF.FDB".to_string(),
        usuario: "app".to_string(),
        password: "secreta".to_string(),
        metadatos_path: None,
        existencias_negativas: false,
        validar_precio_minimo: false,
    }
}

fn fila(textos: &[(&str, &str)], enteros: &[(&str, i32)]) -> RowReader {
    let mut r = RowReader::nuevo();
    for (n, v) in textos {
        let mut b = v.as_bytes().to_vec();
        b.push(0);
        r.agregar_texto(n, 0, b);
    }
    for (n, v) in enteros {
        r.agregar_entero(n, 0, *v);
    }
    r
}

fn nombres(c: &Consulta) -> Vec<String> {
    c.campos
        .iter()
        .map(|k| match k {
            Campo::Texto(n, _) => format!("t:{n}"),
            Campo::Entero(n, _) => format!("e:{n}"),
        })
        .collect()
}

#[test]
fn lectura_de_campos() {
    let mut r = RowReader::nuevo();
    r.agregar_texto("A", 0, b"  hola \0basura".to_vec());
    r.agregar_texto("VACIO", 0, b"  \0".to_vec());
    r.agregar_texto("MAL", 7, vec![]);
    r.agregar_texto("PRECIO", 0, b"150000\0".to_vec());
    r.agregar_entero("N", 0, -3);
    r.agregar_entero("MALN", 9, 0);
    assert_eq!(r.str_field("A").unwrap(), "hola");
    assert_eq!(r.opt_str("A").unwrap(), "hola");
    assert_eq!(r.opt_str("VACIO"), None);
    assert_eq!(r.opt_str("MAL"), None);
    assert_eq!(
        r.str_field("MAL").unwrap_err().mensaje(),
        "error del ERP (código 7): error leyendo campo 'MAL'"
    );
    assert_eq!(r.int_field("N").unwrap(), -3);
    assert_eq!(
        r.int_field("MALN").unwrap_err().mensaje(),
        "error del ERP (código 9): error leyendo campo int 'MALN'"
    );
    let d = r.opt_dec("PRECIO", 2).unwrap();
    assert_eq!((d.mantisa(), d.escala()), (150000, 2));
    // Sin dato no hay cero.
    assert_eq!(r.opt_dec("VACIO", 2), None);
    assert_eq!(r.opt_dec("MAL", 2), None);
    assert_eq!(r.opt_dec("A", 2), None);
}

fn fila_factura(fecha: &str, neto: &str) -> RowReader {
    fila(
        &[
            ("IMPORTE_NETO", neto),
            ("TOTAL_IMPUESTOS", "24000"),
            ("FLETES", "500"),
            ("OTROS_CARGOS", "25"),
            ("DSCTO_IMPORTE", "1000"),
            ("TOTAL_RETENCIONES", "300"),
            ("FOLIO", "A000001"),
            ("FECHA", fecha),
        ],
        &[("DOCTO_VE_ID", 77), ("CLIENTE_ID", 1042)],
    )
}

#[test]
fn fila_de_factura() {
    let f = map_factura_row(&fila_factura("07/08/2025", "150000")).unwrap();
    assert_eq!(f.id, EntidadId::Numerico(77));
    assert_eq!(f.cliente_id, EntidadId::Numerico(1042));
    assert_eq!(f.folio, "A000001");
    assert_eq!((f.fecha.anio(), f.fecha.mes(), f.fecha.dia()), (2025, 8, 7));
    let t = f.total.unwrap();
    assert_eq!((t.mantisa(), t.escala()), (150000 + 24000 + 500 + 25 - 1000 - 300, 2));
    assert!(f.extra.is_empty());
}

#[test]
fn fila_de_factura_con_errores() {
    assert_eq!(
        map_factura_row(&fila_factura("2025-08-07", "150000")).unwrap_err().mensaje(),
        "error de validación: formato de fecha inesperado en FECHA: \"2025-08-07\" (se esperaba DD/MM/AAAA)"
    );
    assert_eq!(
        map_factura_row(&fila_factura("07/08/2025", "1,500")).unwrap_err().mensaje(),
        "error de validación: valor monetario no numérico en IMPORTE_NETO: \"1,500\""
    );
    let r = fila(&[("F", "31/02/2024"), ("M", "x")], &[]);
    assert!(fecha_field(&r, "F").is_err());
    assert!(monto_field(&r, "M").is_err());
    assert!(fecha_o_error("F", "x", None).is_err());
    // Montos extremos: la suma no desborda.
    let m = "9223372036854775807";
    let r = fila(
        &[
            ("IMPORTE_NETO", m),
            ("TOTAL_IMPUESTOS", m),
            ("FLETES", m),
            ("OTROS_CARGOS", m),
            ("DSCTO_IMPORTE", "0"),
            ("TOTAL_RETENCIONES", "0"),
            ("FOLIO", ""),
            ("FECHA", "01/01/0001"),
        ],
        &[("DOCTO_VE_ID", 1), ("CLIENTE_ID", 1)],
    );
    let f = map_factura_row(&r).unwrap();
    assert_eq!(f.total.unwrap().mantisa(), 4 * 9223372036854775807i128);
}

#[test]
fn fecha_de_ida_y_vuelta() {
    for (a, m, d) in [(0, 1, 1), (1, 2, 3), (987, 12, 31), (2024, 2, 29), (9999, 12, 31)] {
        let texto = format!("{d:02}/{m:02}/{a:04}");
        let f = fecha_field(&fila(&[("F", &texto)], &[]), "F").unwrap();
        assert_eq!((f.anio(), f.mes(), f.dia()), (a, m, d));
    }
}

#[test]
fn fila_de_cliente() {
    let c = map_cliente(&fila(
        &[
            ("NOMBRE", "ACME"),
            ("RFC_CURP", "XAXX010101000"),
            ("TELEFONO1", ""),
            ("EMAIL", "a@b.mx"),
        ],
        &[("CLIENTE_ID", 5)],
    ))
    .unwrap();
    assert_eq!(c.id, EntidadId::Numerico(5));
    assert_eq!(c.nombre, "ACME");
    let f = c.id_fiscal.unwrap();
    assert_eq!((f.pais, f.valor.as_str()), (Pais::Mexico, "XAXX010101000"));
    assert_eq!(c.telefono, None);
    assert_eq!(c.email.as_deref(), Some("a@b.mx"));
    assert!(c.moneda.is_none());
    assert!(c.extra.is_empty());
}

#[test]
fn fila_de_articulo() {
    let a = map_articulo(&fila(&[("NOMBRE", "Tornillo"), ("PRECIO", "1250")], &[("ARTICULO_ID", 9)]))
        .unwrap();
    assert_eq!(a.id, EntidadId::Numerico(9));
    assert_eq!(a.nombre, "Tornillo");
    assert!(a.clave.is_none() && a.existencia.is_none());
    let p = a.precio_lista.unwrap();
    assert_eq!((p.mantisa(), p.escala()), (1250, 2));
    let a = map_articulo(&fila(&[("NOMBRE", "T"), ("PRECIO", "")], &[("ARTICULO_ID", 9)])).unwrap();
    assert!(a.precio_lista.is_none());
}

#[test]
fn fila_de_credito() {
    let c = map_credito_row(&fila(&[("FOLIO", " C1 ")], &[("DOCTO_CC_ID", 31)])).unwrap();
    assert_eq!(c.id, EntidadId::Numerico(31));
    assert_eq!(c.folio, "C1");
}

#[test]
fn consultas_de_clientes() {
    let m = ClientesMicrosip { config: config() };
    let c = m.listar(&FiltroClientes::default());
    assert_eq!(
        c.sql,
        "SELECT FIRST 500 c.CLIENTE_ID, c.NOMBRE, d.RFC_CURP, d.TELEFONO1, d.EMAIL FROM CLIENTES c LEFT JOIN DIRS_CLIENTES d ON d.CLIENTE_ID = c.CLIENTE_ID AND d.ES_DIR_PPAL = 'S' ORDER BY c.NOMBRE"
    );
    assert!(c.params.is_empty());
    assert_eq!(nombres(&c), ["e:CLIENTE_ID", "t:NOMBRE", "t:RFC_CURP", "t:TELEFONO1", "t:EMAIL"]);
    let malo = "'; DROP TABLE CLIENTES --".to_string();
    let c = m.listar(&FiltroClientes {
        texto: Some(malo.clone()),
        limite: Some(3),
        pagina: None,
    });
    assert_eq!(
        c.sql,
        "SELECT FIRST 3 c.CLIENTE_ID, c.NOMBRE, d.RFC_CURP, d.TELEFONO1, d.EMAIL FROM CLIENTES c LEFT JOIN DIRS_CLIENTES d ON d.CLIENTE_ID = c.CLIENTE_ID AND d.ES_DIR_PPAL = 'S' WHERE UPPER(c.NOMBRE) CONTAINING UPPER(:texto) OR d.RFC_CURP CONTAINING :texto ORDER BY c.NOMBRE"
    );
    assert_eq!(c.params, vec![("texto", malo)]);
    let (c, n) = m.obtener(&EntidadId::from("42")).unwrap();
    assert_eq!(n, 42);
    assert!(c.sql.ends_with("WHERE c.CLIENTE_ID = 42"));
    assert!(m.obtener(&EntidadId::from("4x")).is_err());
    let nuevo = NuevoCliente {
        nombre: "N".to_string(),
        id_fiscal: None,
        email: None,
        telefono: None,
        extra: serde_json::Map::new(),
    };
    assert_eq!(
        m.crear(&nuevo).unwrap_err().mensaje(),
        "operación aún no implementada: microsip::clientes::crear"
    );
}

#[test]
fn consultas_de_articulos() {
    let m = ArticulosMicrosip { config: config() };
    let c = m.articulos(&FiltroArticulos::default());
    assert_eq!(
        c.sql,
        "SELECT FIRST 500 a.ARTICULO_ID, a.NOMBRE, pa.PRECIO FROM ARTICULOS a LEFT JOIN PRECIOS_ARTICULOS pa ON pa.ARTICULO_ID = a.ARTICULO_ID AND pa.PRECIO_EMPRESA_ID = ( SELECT pe.PRECIO_EMPRESA_ID FROM PRECIOS_EMPRESA pe WHERE pe.ID_INTERNO = 'L') WHERE a.ESTATUS = 'A' ORDER BY a.NOMBRE"
    );
    let c = m.articulos(&FiltroArticulos {
        texto: Some("tor".to_string()),
        limite: Some(10),
        pagina: None,
    });
    assert!(c.sql.ends_with(
        "WHERE a.ESTATUS = 'A' AND UPPER(a.NOMBRE) CONTAINING UPPER(:texto) ORDER BY a.NOMBRE"
    ));
    assert!(c.sql.starts_with("SELECT FIRST 10 a.ARTICULO_ID"));
    assert_eq!(c.params, vec![("texto", "tor".to_string())]);
    let e = NuevaEntrada {
        almacen_id: EntidadId::Numerico(1),
        fecha: None,
        folio: None,
        descripcion: None,
        renglones: vec![],
        extra: serde_json::Map::new(),
    };
    assert!(m.entrada(&e).unwrap_err().mensaje().contains("microsip::inventario::entrada"));
    let s = NuevaSalida {
        almacen_id: EntidadId::Numerico(1),
        almacen_destino_id: None,
        fecha: None,
        folio: None,
        descripcion: None,
        renglones: vec![],
        extra: serde_json::Map::new(),
    };
    assert!(m.salida(&s).unwrap_err().mensaje().contains("microsip::inventario::salida"));
}

#[test]
fn consultas_de_documentos() {
    let f = FacturasMicrosip { config: config() };
    let (c, n) = f.obtener(&EntidadId::Numerico(77)).unwrap();
    assert_eq!(n, 77);
    assert_eq!(
        c.sql,
        "SELECT DOCTO_VE_ID, FOLIO, FECHA, CLIENTE_ID, IMPORTE_NETO, TOTAL_IMPUESTOS, FLETES, OTROS_CARGOS, DSCTO_IMPORTE, TOTAL_RETENCIONES FROM DOCTOS_VE WHERE TIPO_DOCTO = 'F' AND DOCTO_VE_ID = 77"
    );
    assert_eq!(
        f.obtener(&EntidadId::from("F-1")).unwrap_err().mensaje(),
        "error de validación: el id de factura debe ser numérico, recibido: 'F-1'"
    );
    let k = CxcMicrosip { config: config() };
    assert_eq!(
        k.consulta(-4).sql,
        "SELECT DOCTO_CC_ID, FOLIO FROM DOCTOS_CC WHERE DOCTO_CC_ID = -4"
    );
}

#[test]
fn reglas_de_ventas_invertidas() {
    let mut c = config();
    assert_eq!(c.reglas_ventas(), (1, 0));
    c.existencias_negativas = true;
    c.validar_precio_minimo = true;
    assert_eq!(c.reglas_ventas(), (0, 1));
}

#[test]
fn provider_microsip() {
    let p = MicrosipProvider::new(config());
    assert_eq!(p.name(), "microsip");
    assert_eq!(
        p.paises(),
        vec![
            Pais::Mexico,
            Pais::Guatemala,
            Pais::ElSalvador,
            Pais::Honduras,
            Pais::Nicaragua,
            Pais::CostaRica,
            Pais::Panama
        ]
    );
    let c = p.capacidades();
    assert!(c.clientes && c.facturas && c.inventario && c.cxc && c.security);
    assert!(!c.pedidos && !c.compras && !c.contabilidad);
    assert_eq!(p.clientes.config.db_path, "SF.FDB");
}

#[test]
fn consultas_de_esquema() {
    let p = MicrosipProvider::new(config());
    assert!(p.listar_tablas().sql.starts_with("SELECT TRIM(RDB$RELATION_NAME) AS TABLA"));
    let c = p.describir_tabla("clientesñ");
    assert_eq!(c.params, vec![("tabla", "CLIENTESÑ".to_string())]);
    assert!(c.sql.contains("= :tabla ORDER BY f.RDB$FIELD_POSITION"));
    assert_eq!(
        p.valores_distintos("doctos_ve", "Tipo_Docto").unwrap().sql,
        "SELECT DISTINCT TRIM(TIPO_DOCTO) AS VALOR FROM DOCTOS_VE ORDER BY VALOR"
    );
    for (t, k, malo) in
        [("", "A", ""), ("A B", "C", "A B"), ("T", "C;--", "C;--"), ("T", "ñ", "ñ"), ("x'", "y'", "x'")]
    {
        assert_eq!(
            p.valores_distintos(t, k).unwrap_err().mensaje(),
            format!("error de validación: identificador SQL inválido: '{malo}'")
        );
    }
    let nombres_col = vec!["ID".to_string(), "NOMBRE".to_string()];
    let c = p.muestra_tabla("clientes", 2, &nombres_col).unwrap();
    assert_eq!(c.sql, "SELECT FIRST 2 ID, NOMBRE FROM CLIENTES");
    assert_eq!(nombres(&c), ["t:ID", "t:NOMBRE"]);
    assert!(p.muestra_tabla("clientes", 2, &vec![]).is_none());
}

#[test]
fn filas_de_esquema() {
    assert_eq!(tabla_row(&fila(&[("TABLA", "X ")], &[])).unwrap(), "X");
    assert_eq!(valor_row(&fila(&[("VALOR", "F")], &[])).unwrap(), "F");
    let c = columna_row(&fila(&[("CAMPO", "NOMBRE")], &[("TIPO_ID", 37), ("LONGITUD", 100)])).unwrap();
    assert_eq!((c.nombre.as_str(), c.tipo.as_str()), ("NOMBRE", "VARCHAR(100)"));
    let mut r = fila(&[("CAMPO", "NOMBRE")], &[("TIPO_ID", 14)]);
    r.agregar_entero("LONGITUD", 5, 33);
    assert_eq!(columna_row(&r).unwrap().tipo, "CHAR(0)");
    let mut r = fila(&[("A", "1")], &[]);
    r.agregar_texto("B", 3, vec![]);
    let v = muestra_row(&r, &vec!["A".to_string(), "B".to_string()]);
    assert_eq!(v[0], ("A".to_string(), "1".to_string()));
    assert_eq!(
        v[1].1,
        "<error: error del ERP (código 3): error leyendo campo 'B'>"
    );
}

#[test]
fn tipos_de_firebird() {
    for (id, t) in [
        (14, "CHAR(8)"),
        (37, "VARCHAR(8)"),
        (7, "SMALLINT"),
        (8, "INTEGER"),
        (16, "BIGINT"),
        (10, "FLOAT"),
        (27, "DOUBLE PRECISION"),
        (12, "DATE"),
        (13, "TIME"),
        (35, "TIMESTAMP"),
        (261, "BLOB"),
        (-9, "TIPO_-9"),
    ] {
        assert_eq!(tipo_firebird(id, 8), t);
    }
}

#[test]
fn campo_que_no_se_leyo() {
    let r = fila(&[("A", "1")], &[]);
    assert_eq!(r.str_field("B").unwrap_err().mensaje(), "error de validación: campo sin leer: B");
    assert_eq!(r.int_field("A").unwrap_err().mensaje(), "error de validación: campo sin leer: A");
    assert_eq!(r.opt_str("B"), None);
    assert_eq!(r.opt_dec("B", 2), None);
}

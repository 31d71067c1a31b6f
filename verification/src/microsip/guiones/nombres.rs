//! Los nombres de las funciones nativas son distintos.

use vstd::prelude::*;

verus! {

/// Lo que distingue a cada nombre: su largo y algunas letras.
pub(crate) proof fn lema_nombres()
    ensures
        "SetErrorHandling"@.len() == 16 && "SetErrorHandling"@[0] == 'S',
        "NewDB"@.len() == 5 && "NewDB"@[0] == 'N' && "NewDB"@[3] == 'D',
        "NewTrn"@.len() == 6 && "NewTrn"@[0] == 'N',
        "DBConnect"@.len() == 9 && "DBConnect"@[0] == 'D',
        "DBDisconnect"@.len() == 12 && "DBDisconnect"@[0] == 'D',
        "veSetErrorHandling"@.len() == 18 && "veSetErrorHandling"@[0] == 'v',
        "SetDBVentas"@.len() == 11 && "SetDBVentas"@[0] == 'S',
        "ChecaCompatibilidadVentas"@.len() == 25 && "ChecaCompatibilidadVentas"@[0] == 'C',
        "SetReglasVentas"@.len() == 15 && "SetReglasVentas"@[0] == 'S',
        "NewPL"@.len() == 5 && "NewPL"@[0] == 'N' && "NewPL"@[3] == 'P',
        "PLClear"@.len() == 7 && "PLClear"@[0] == 'P',
        "PLSetParamValue"@.len() == 15 && "PLSetParamValue"@[0] == 'P',
        "NuevaFactura"@.len() == 12 && "NuevaFactura"@[0] == 'N',
        "DirClienteFactura"@.len() == 17 && "DirClienteFactura"@[0] == 'D',
        "SetFormaCobroFactura"@.len() == 20 && "SetFormaCobroFactura"@[0] == 'S',
        "RenglonFactura"@.len() == 14 && "RenglonFactura"@[0] == 'R',
        "GetDoctoVeId"@.len() == 12 && "GetDoctoVeId"@[0] == 'G' && "GetDoctoVeId"@[9] == 'e',
        "AplicaFactura"@.len() == 13 && "AplicaFactura"@[0] == 'A',
        "AbortaDoctoVentas"@.len() == 17 && "AbortaDoctoVentas"@[0] == 'A',
        "ccSetErrorHandling"@.len() == 18 && "ccSetErrorHandling"@[0] == 'c',
        "SetDBCxc"@.len() == 8 && "SetDBCxc"@[0] == 'S',
        "ChecaCompatibilidadCxc"@.len() == 22 && "ChecaCompatibilidadCxc"@[0] == 'C',
        "SetDBMetadatos"@.len() == 14 && "SetDBMetadatos"@[0] == 'S',
        "NuevoCreditoCc"@.len() == 14 && "NuevoCreditoCc"@[0] == 'N',
        "RenglonCreditoCc"@.len() == 16 && "RenglonCreditoCc"@[0] == 'R',
        "GetDoctoCCId"@.len() == 12 && "GetDoctoCCId"@[0] == 'G' && "GetDoctoCCId"@[9] == 'C',
        "AplicaCreditoCc"@.len() == 15 && "AplicaCreditoCc"@[0] == 'A',
        "AbortaDoctoCxc"@.len() == 14 && "AbortaDoctoCxc"@[0] == 'A',
{
    reveal_strlit("SetErrorHandling");
    reveal_strlit("NewDB");
    reveal_strlit("NewTrn");
    reveal_strlit("DBConnect");
    reveal_strlit("DBDisconnect");
    reveal_strlit("veSetErrorHandling");
    reveal_strlit("SetDBVentas");
    reveal_strlit("ChecaCompatibilidadVentas");
    reveal_strlit("SetReglasVentas");
    reveal_strlit("NewPL");
    reveal_strlit("PLClear");
    reveal_strlit("PLSetParamValue");
    reveal_strlit("NuevaFactura");
    reveal_strlit("DirClienteFactura");
    reveal_strlit("SetFormaCobroFactura");
    reveal_strlit("RenglonFactura");
    reveal_strlit("GetDoctoVeId");
    reveal_strlit("AplicaFactura");
    reveal_strlit("AbortaDoctoVentas");
    reveal_strlit("ccSetErrorHandling");
    reveal_strlit("SetDBCxc");
    reveal_strlit("ChecaCompatibilidadCxc");
    reveal_strlit("SetDBMetadatos");
    reveal_strlit("NuevoCreditoCc");
    reveal_strlit("RenglonCreditoCc");
    reveal_strlit("GetDoctoCCId");
    reveal_strlit("AplicaCreditoCc");
    reveal_strlit("AbortaDoctoCxc");
}

} // verus!

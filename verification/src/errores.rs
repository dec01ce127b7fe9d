//! Tipos de errores que pueden darse en la ejecucion del sistema

use vstd::prelude::*;

verus! {

/// Enumerativo que engloba a todos los tipos de errores posibles desde
/// todos los modulos
#[derive(Clone, Copy, Debug, PartialEq, Eq, Structural)]
pub enum Error {
    ErrorDeGuardian(ErrorGuardian),
    ErrorDeEcommerce(ErrorEcommerce),
    ErrorDeParseo(ErrorDuranteParseo),
    ErrorDeServidor(ErrorServidor),
    ErrorEnJoin,
    ErrorEnCtrlC,
}

/// Errores que pueden darse desde el guardian
#[derive(Clone, Copy, Debug, PartialEq, Eq, Structural)]
pub enum ErrorGuardian {
    NoHayStock,
    NoHaySuficienteStock,
    PedidoInexistente,
    /// Ya habia una reserva con esa clave: dos bloqueos del mismo
    /// pedido nunca prosperan ambos
    PedidoYaBloqueado,
}

/// Errores que pueden darse desde el ecommerce
#[derive(Clone, Copy, Debug, PartialEq, Eq, Structural)]
pub enum ErrorEcommerce {
    ErrorMonitor,
    ErrorCreandoTareas,
    PedidoTimeout,
    AckTimeout,
    CantidadCero,
}

/// Errores que pueden darse en el parseo de los archivos de stock y de pedidos
#[derive(Clone, Copy, Debug, PartialEq, Eq, Structural)]
pub enum ErrorDuranteParseo {
    NoSePudoAbrirArchivo,
    FormatoArchivoInvalido,
    NoSePudoObtenerId,
    NoSeHalloArchivoPedidos,
}

/// Errores que pueden darse en el servidor y su contacto con los
/// componentes intervinientes
#[derive(Clone, Copy, Debug, PartialEq, Eq, Structural)]
pub enum ErrorServidor {
    ImposibleRevivir,
    ImposibleInicializar,
    GuardianNoDisponible,
    MensajeroNoDisponible,
    DireccionInvalidaEcommerce,
    PedidoInexistente,
    ErrorDesconocido,
}

/// Errores que pueden darse desde el mensajero
#[derive(Clone, Copy, Debug, PartialEq, Eq, Structural)]
pub enum ErrorMensajero {
    InternetCaido,
    DestinoInaccesible,
}

/// Error de decodificacion de un mensaje recibido por la red
#[derive(Clone, Copy, Debug, PartialEq, Eq, Structural)]
pub enum ErrorMensaje {
    MensajeInvalido,
}

impl From<ErrorDuranteParseo> for Error {
    fn from(err: ErrorDuranteParseo) -> (r: Error) {
        Error::ErrorDeParseo(err)
    }
}

impl vstd::std_specs::convert::FromSpecImpl<ErrorDuranteParseo> for Error {
    open spec fn obeys_from_spec() -> bool {
        true
    }

    open spec fn from_spec(err: ErrorDuranteParseo) -> Error {
        Error::ErrorDeParseo(err)
    }
}

impl From<ErrorGuardian> for Error {
    fn from(err: ErrorGuardian) -> (r: Error) {
        Error::ErrorDeGuardian(err)
    }
}

impl vstd::std_specs::convert::FromSpecImpl<ErrorGuardian> for Error {
    open spec fn obeys_from_spec() -> bool {
        true
    }

    open spec fn from_spec(err: ErrorGuardian) -> Error {
        Error::ErrorDeGuardian(err)
    }
}

impl From<ErrorEcommerce> for Error {
    fn from(err: ErrorEcommerce) -> (r: Error) {
        Error::ErrorDeEcommerce(err)
    }
}

impl vstd::std_specs::convert::FromSpecImpl<ErrorEcommerce> for Error {
    open spec fn obeys_from_spec() -> bool {
        true
    }

    open spec fn from_spec(err: ErrorEcommerce) -> Error {
        Error::ErrorDeEcommerce(err)
    }
}

impl From<ErrorServidor> for Error {
    fn from(err: ErrorServidor) -> (r: Error) {
        Error::ErrorDeServidor(err)
    }
}

impl vstd::std_specs::convert::FromSpecImpl<ErrorServidor> for Error {
    open spec fn obeys_from_spec() -> bool {
        true
    }

    open spec fn from_spec(err: ErrorServidor) -> Error {
        Error::ErrorDeServidor(err)
    }
}

impl From<ErrorGuardian> for ErrorServidor {
    fn from(e: ErrorGuardian) -> (r: ErrorServidor) {
        match e {
            ErrorGuardian::PedidoInexistente => ErrorServidor::PedidoInexistente,
            _ => ErrorServidor::ErrorDesconocido,
        }
    }
}

impl vstd::std_specs::convert::FromSpecImpl<ErrorGuardian> for ErrorServidor {
    open spec fn obeys_from_spec() -> bool {
        true
    }

    open spec fn from_spec(e: ErrorGuardian) -> ErrorServidor {
        match e {
            ErrorGuardian::PedidoInexistente => ErrorServidor::PedidoInexistente,
            _ => ErrorServidor::ErrorDesconocido,
        }
    }
}

} // verus!

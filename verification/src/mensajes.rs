//! Estructura de los mensajes con los que se comunican los locales entre si,
//! y los ecommerce con los locales, junto con su codificacion a bytes.
//!
//! Todo datagrama comienza con un byte de tipo; los enteros de varios bytes
//! van en notacion big-endian. Las funciones `as_bytes` incluyen el byte de
//! tipo; las funciones `from_bytes` esperan el cuerpo que le sigue.

use vstd::prelude::*;

use crate::errores::ErrorMensaje;
use crate::pedido::{
    alto_u16, bajo_u16, bytes_a_u16, spec_decodificar_pedido, spec_pedido_bytes, u16_a_bytes,
    u16_de_bytes, Pedido,
};
use crate::MAX_MENSAJE;

verus! {

/// Enumerado de los tipos de mensajes que existen para ser enviados
/// por un socket
#[derive(Clone, Copy, Debug, PartialEq, Eq, Structural)]
pub enum TipoMensaje {
    MensajeServidor,
    MensajeEcommerce,
    MensajeDelegado,
    AckDelegado,
    AckEcommerce,
    Matar,
    Revivir,
}

/// Byte de tipo con el que comienza cada clase de datagrama
pub open spec fn spec_codigo_tipo(t: TipoMensaje) -> u8 {
    match t {
        TipoMensaje::MensajeServidor => 0,
        TipoMensaje::MensajeEcommerce => 1,
        TipoMensaje::MensajeDelegado => 2,
        TipoMensaje::AckDelegado => 3,
        TipoMensaje::AckEcommerce => 4,
        TipoMensaje::Matar => 5,
        TipoMensaje::Revivir => 6,
    }
}

/// Tipo de mensaje que corresponde a un byte leido, si existe
pub open spec fn spec_tipo_de_byte(b: u8) -> Option<TipoMensaje> {
    if b == 0 {
        Some(TipoMensaje::MensajeServidor)
    } else if b == 1 {
        Some(TipoMensaje::MensajeEcommerce)
    } else if b == 2 {
        Some(TipoMensaje::MensajeDelegado)
    } else if b == 3 {
        Some(TipoMensaje::AckDelegado)
    } else if b == 4 {
        Some(TipoMensaje::AckEcommerce)
    } else if b == 5 {
        Some(TipoMensaje::Matar)
    } else if b == 6 {
        Some(TipoMensaje::Revivir)
    } else {
        None
    }
}

impl TipoMensaje {
    /// Byte de tipo de este mensaje
    pub fn codigo(&self) -> (r: u8)
        ensures
            r == spec_codigo_tipo(*self),
    {
        match self {
            TipoMensaje::MensajeServidor => 0,
            TipoMensaje::MensajeEcommerce => 1,
            TipoMensaje::MensajeDelegado => 2,
            TipoMensaje::AckDelegado => 3,
            TipoMensaje::AckEcommerce => 4,
            TipoMensaje::Matar => 5,
            TipoMensaje::Revivir => 6,
        }
    }

    /// Convierte el primer byte leido en un tipo de mensaje
    pub fn from_bytes(buf: &[u8]) -> (r: Result<Self, ErrorMensaje>)
        ensures
            match r {
                Ok(t) => buf@.len() >= 1 && spec_tipo_de_byte(buf@[0]) == Some(t),
                Err(e) => {
                    &&& buf@.len() == 0 || spec_tipo_de_byte(buf@[0]) is None
                    &&& e == ErrorMensaje::MensajeInvalido
                },
            },
    {
        if buf.len() < 1 {
            return Err(ErrorMensaje::MensajeInvalido);
        }
        match buf[0] {
            0 => Ok(TipoMensaje::MensajeServidor),
            1 => Ok(TipoMensaje::MensajeEcommerce),
            2 => Ok(TipoMensaje::MensajeDelegado),
            3 => Ok(TipoMensaje::AckDelegado),
            4 => Ok(TipoMensaje::AckEcommerce),
            5 => Ok(TipoMensaje::Matar),
            6 => Ok(TipoMensaje::Revivir),
            _ => Err(ErrorMensaje::MensajeInvalido),
        }
    }
}

/// El tipo leido de un byte valido es el que escribio ese byte
pub proof fn lemma_tipo_ida_y_vuelta(t: TipoMensaje)
    ensures
        spec_tipo_de_byte(spec_codigo_tipo(t)) == Some(t),
{
}

/// Mensajes que envia el local al ecommerce para avisarle
/// cual fue el output de su pedido
#[derive(Clone, Copy, Debug, PartialEq, Eq, Structural)]
pub enum MensajesServidor {
    PedidoExitoso(u16),
    PedidoCancelado(u16),
    NoHayStock(u16),
}

/// Identificador de pedido que lleva una respuesta del servidor
pub open spec fn spec_id_respuesta(m: MensajesServidor) -> u16 {
    match m {
        MensajesServidor::PedidoExitoso(id) => id,
        MensajesServidor::PedidoCancelado(id) => id,
        MensajesServidor::NoHayStock(id) => id,
    }
}

/// Byte de subtipo de una respuesta del servidor
pub open spec fn spec_subtipo_respuesta(m: MensajesServidor) -> u8 {
    match m {
        MensajesServidor::PedidoExitoso(_) => 0,
        MensajesServidor::PedidoCancelado(_) => 1,
        MensajesServidor::NoHayStock(_) => 2,
    }
}

/// Datagrama completo de una respuesta del servidor: tipo, subtipo e id
pub open spec fn spec_mensaje_servidor_bytes(m: MensajesServidor) -> Seq<u8> {
    seq![
        0u8,
        spec_subtipo_respuesta(m),
        alto_u16(spec_id_respuesta(m)),
        bajo_u16(spec_id_respuesta(m)),
    ]
}

/// Decodificacion del cuerpo de una respuesta del servidor (sin el byte
/// de tipo); los bytes que sobren al final se ignoran
pub open spec fn spec_decodificar_mensaje_servidor(buf: Seq<u8>) -> Option<MensajesServidor> {
    if buf.len() < 3 {
        None
    } else {
        let id = u16_de_bytes(buf[1], buf[2]);
        if buf[0] == 0 {
            Some(MensajesServidor::PedidoExitoso(id))
        } else if buf[0] == 1 {
            Some(MensajesServidor::PedidoCancelado(id))
        } else if buf[0] == 2 {
            Some(MensajesServidor::NoHayStock(id))
        } else {
            None
        }
    }
}

impl MensajesServidor {
    /// Convierte un mensaje en un array de bytes para poder ser enviado,
    /// agregandole a su vez el tipo
    pub fn as_bytes(&self) -> (r: Vec<u8>)
        ensures
            r@ == spec_mensaje_servidor_bytes(*self),
    {
        let mut buf: Vec<u8> = Vec::new();
        buf.push(0u8);
        let (subtipo, id): (u8, u16) = match self {
            Self::PedidoExitoso(id) => (0u8, *id),
            Self::PedidoCancelado(id) => (1u8, *id),
            Self::NoHayStock(id) => (2u8, *id),
        };
        buf.push(subtipo);
        let (alto, bajo) = u16_a_bytes(id);
        buf.push(alto);
        buf.push(bajo);
        proof {
            assert(buf@ =~= spec_mensaje_servidor_bytes(*self));
        }
        buf
    }

    /// Convierte bytes leidos en un mensaje del tipo MensajesServidor
    /// # Errors:
    /// * si el buffer de lectura pasado tiene menos bytes que los
    ///   necesarios para completar el mensaje, o el subtipo no existe
    pub fn from_bytes(buf: &[u8]) -> (r: Result<Self, ErrorMensaje>)
        ensures
            match r {
                Ok(m) => spec_decodificar_mensaje_servidor(buf@) == Some(m),
                Err(e) => {
                    &&& spec_decodificar_mensaje_servidor(buf@) is None
                    &&& e == ErrorMensaje::MensajeInvalido
                },
            },
    {
        if buf.len() < 3 {
            return Err(ErrorMensaje::MensajeInvalido);
        }
        let id_pedido = bytes_a_u16(buf[1], buf[2]);
        match buf[0] {
            0 => Ok(Self::PedidoExitoso(id_pedido)),
            1 => Ok(Self::PedidoCancelado(id_pedido)),
            2 => Ok(Self::NoHayStock(id_pedido)),
            _ => Err(ErrorMensaje::MensajeInvalido),
        }
    }
}

/// La decodificacion de la codificacion de una respuesta del servidor
/// devuelve la misma respuesta
pub proof fn lemma_mensaje_servidor_ida_y_vuelta(m: MensajesServidor)
    ensures
        spec_decodificar_mensaje_servidor(spec_mensaje_servidor_bytes(m).skip(1)) == Some(m),
{
    assert(spec_mensaje_servidor_bytes(m).skip(1) =~= seq![
        spec_subtipo_respuesta(m),
        alto_u16(spec_id_respuesta(m)),
        bajo_u16(spec_id_respuesta(m)),
    ]);
}

/// Mensaje inicial que envia el ecommerce a algun local para realizar un
/// pedido. El id del pedido es el id interno que le asigna el ecommerce al
/// pedido para reconocerlo, mientras que el id que se encuentra dentro del
/// pedido es el identificador del producto
#[derive(Clone, Copy, Debug, PartialEq, Eq, Structural)]
pub struct MensajeEcommerce {
    pub id_pedido: u16,
    pub pedido: Pedido,
}

/// Cuerpo de un mensaje de ecommerce: id de pedido y pedido
pub open spec fn spec_cuerpo_ecommerce(m: MensajeEcommerce) -> Seq<u8> {
    seq![alto_u16(m.id_pedido), bajo_u16(m.id_pedido)] + spec_pedido_bytes(m.pedido)
}

/// Datagrama completo de un mensaje de ecommerce: tipo y cuerpo
pub open spec fn spec_mensaje_ecommerce_bytes(m: MensajeEcommerce) -> Seq<u8> {
    seq![1u8] + spec_cuerpo_ecommerce(m)
}

/// Decodificacion del cuerpo de un mensaje de ecommerce (sin el byte de
/// tipo); los bytes que sobren al final se ignoran
pub open spec fn spec_decodificar_ecommerce(buf: Seq<u8>) -> Option<MensajeEcommerce> {
    if buf.len() < 5 {
        None
    } else {
        match spec_decodificar_pedido(buf.skip(2)) {
            Some(pedido) => Some(
                MensajeEcommerce { id_pedido: u16_de_bytes(buf[0], buf[1]), pedido },
            ),
            None => None,
        }
    }
}

impl MensajeEcommerce {
    /// Crea un nuevo pedido a partir de un identificador de pedido
    /// y un pedido
    pub fn new(id_pedido: u16, pedido: Pedido) -> (r: Self)
        ensures
            r == (MensajeEcommerce { id_pedido, pedido }),
    {
        Self { id_pedido, pedido }
    }

    /// Obtiene el identificador del pedido
    pub fn get_id(&self) -> (r: u16)
        ensures
            r == self.id_pedido,
    {
        self.id_pedido
    }

    /// Convierte bytes leidos en un mensaje del tipo MensajeEcommerce
    /// # Errors:
    /// * si el buffer de lectura pasado tiene menos bytes que los
    ///   necesarios para completar el mensaje
    pub fn from_bytes(buf: &[u8]) -> (r: Result<Self, ErrorMensaje>)
        ensures
            match r {
                Ok(m) => spec_decodificar_ecommerce(buf@) == Some(m),
                Err(e) => {
                    &&& spec_decodificar_ecommerce(buf@) is None
                    &&& e == ErrorMensaje::MensajeInvalido
                },
            },
    {
        if buf.len() < 5 {
            return Err(ErrorMensaje::MensajeInvalido);
        }
        let id_pedido = bytes_a_u16(buf[0], buf[1]);
        let pedido = Pedido::new(bytes_a_u16(buf[2], buf[3]), buf[4]);
        proof {
            assert(buf@.skip(2)[0] == buf@[2]);
            assert(buf@.skip(2)[1] == buf@[3]);
            assert(buf@.skip(2)[2] == buf@[4]);
        }
        Ok(Self::new(id_pedido, pedido))
    }

    /// Convierte un MensajeEcommerce en un array de bytes, incluyendo su
    /// tipo, para poder enviarlo por un stream.
    pub fn as_bytes(&self) -> (r: Vec<u8>)
        ensures
            r@ == spec_mensaje_ecommerce_bytes(*self),
    {
        let mut buf_message: Vec<u8> = Vec::new();
        buf_message.push(1u8);
        let (alto, bajo) = u16_a_bytes(self.id_pedido);
        buf_message.push(alto);
        buf_message.push(bajo);
        let (alto_prod, bajo_prod) = u16_a_bytes(self.pedido.get_id());
        buf_message.push(alto_prod);
        buf_message.push(bajo_prod);
        buf_message.push(self.pedido.get_amount());
        proof {
            assert(buf_message@ =~= spec_mensaje_ecommerce_bytes(*self));
        }
        buf_message
    }
}

/// La decodificacion de la codificacion de un mensaje de ecommerce
/// devuelve el mismo mensaje
pub proof fn lemma_mensaje_ecommerce_ida_y_vuelta(m: MensajeEcommerce)
    ensures
        spec_decodificar_ecommerce(spec_mensaje_ecommerce_bytes(m).skip(1)) == Some(m),
{
    let cuerpo = spec_mensaje_ecommerce_bytes(m).skip(1);
    assert(cuerpo =~= spec_cuerpo_ecommerce(m));
    assert(cuerpo.skip(2) =~= spec_pedido_bytes(m.pedido));
}

/// Mensaje que se envia a un ecommerce para avisarle que su pedido
/// fue recibido correctamente. Dado que se usa UDP como protocolo
/// de transporte, es recomendable hacer uso de este.
#[derive(Clone, Copy, Debug, PartialEq, Eq, Structural)]
pub struct AckEcommerce {
    pub id_pedido: u16,
}

/// Datagrama completo de un ack a un ecommerce: tipo e id de pedido
pub open spec fn spec_ack_ecommerce_bytes(m: AckEcommerce) -> Seq<u8> {
    seq![4u8, alto_u16(m.id_pedido), bajo_u16(m.id_pedido)]
}

/// Decodificacion del cuerpo de un ack a un ecommerce (sin el byte de
/// tipo); los bytes que sobren al final se ignoran
pub open spec fn spec_decodificar_ack_ecommerce(buf: Seq<u8>) -> Option<AckEcommerce> {
    if buf.len() < 2 {
        None
    } else {
        Some(AckEcommerce { id_pedido: u16_de_bytes(buf[0], buf[1]) })
    }
}

impl AckEcommerce {
    /// Crea un ack dado un id de pedido, para avisar que ese pedido
    /// fue recibido
    pub fn new(id_pedido: u16) -> (r: Self)
        ensures
            r == (AckEcommerce { id_pedido }),
    {
        Self { id_pedido }
    }

    /// Convierte bytes leidos en un mensaje del tipo AckEcommerce
    /// # Errors:
    /// * si el buffer de lectura pasado tiene menos bytes que los
    ///   necesarios para completar el mensaje
    pub fn from_bytes(buf: &[u8]) -> (r: Result<Self, ErrorMensaje>)
        ensures
            match r {
                Ok(m) => spec_decodificar_ack_ecommerce(buf@) == Some(m),
                Err(e) => {
                    &&& spec_decodificar_ack_ecommerce(buf@) is None
                    &&& e == ErrorMensaje::MensajeInvalido
                },
            },
    {
        if buf.len() < 2 {
            return Err(ErrorMensaje::MensajeInvalido);
        }
        Ok(Self::new(bytes_a_u16(buf[0], buf[1])))
    }

    /// Convierte un AckEcommerce en un array de bytes, incluyendo su tipo
    pub fn as_bytes(&self) -> (r: Vec<u8>)
        ensures
            r@ == spec_ack_ecommerce_bytes(*self),
    {
        let mut buf_message: Vec<u8> = Vec::new();
        buf_message.push(4u8);
        let (alto, bajo) = u16_a_bytes(self.id_pedido);
        buf_message.push(alto);
        buf_message.push(bajo);
        proof {
            assert(buf_message@ =~= spec_ack_ecommerce_bytes(*self));
        }
        buf_message
    }
}

/// La decodificacion de la codificacion de un ack a ecommerce devuelve
/// el mismo ack
pub proof fn lemma_ack_ecommerce_ida_y_vuelta(m: AckEcommerce)
    ensures
        spec_decodificar_ack_ecommerce(spec_ack_ecommerce_bytes(m).skip(1)) == Some(m),
{
    assert(spec_ack_ecommerce_bytes(m).skip(1) =~= seq![
        alto_u16(m.id_pedido),
        bajo_u16(m.id_pedido),
    ]);
}

/// Mensaje que envia un local a otro local para avisarle que
/// recibio correctamente la delegacion de un pedido
#[derive(Clone, Copy, Debug, PartialEq, Eq, Structural)]
pub struct AckDelegado {
    pub id_pedido: u16,
    pub puerto: u16,
}

/// Datagrama completo de un ack de delegacion: tipo, id de pedido y puerto
pub open spec fn spec_ack_delegado_bytes(m: AckDelegado) -> Seq<u8> {
    seq![
        3u8,
        alto_u16(m.id_pedido),
        bajo_u16(m.id_pedido),
        alto_u16(m.puerto),
        bajo_u16(m.puerto),
    ]
}

/// Decodificacion del cuerpo de un ack de delegacion (sin el byte de
/// tipo); los bytes que sobren al final se ignoran
pub open spec fn spec_decodificar_ack_delegado(buf: Seq<u8>) -> Option<AckDelegado> {
    if buf.len() < 4 {
        None
    } else {
        Some(
            AckDelegado {
                id_pedido: u16_de_bytes(buf[0], buf[1]),
                puerto: u16_de_bytes(buf[2], buf[3]),
            },
        )
    }
}

impl AckDelegado {
    /// Crea un ack dados el puerto del ecommerce que hizo el pedido
    /// y el id del pedido
    pub fn new(id_pedido: u16, puerto: u16) -> (r: Self)
        ensures
            r == (AckDelegado { id_pedido, puerto }),
    {
        Self { id_pedido, puerto }
    }

    /// Convierte bytes leidos en un mensaje del tipo AckDelegado
    /// # Errors:
    /// * si el buffer de lectura pasado tiene menos bytes que los
    ///   necesarios para completar el mensaje
    pub fn from_bytes(buf: &[u8]) -> (r: Result<Self, ErrorMensaje>)
        ensures
            match r {
                Ok(m) => spec_decodificar_ack_delegado(buf@) == Some(m),
                Err(e) => {
                    &&& spec_decodificar_ack_delegado(buf@) is None
                    &&& e == ErrorMensaje::MensajeInvalido
                },
            },
    {
        if buf.len() < 4 {
            return Err(ErrorMensaje::MensajeInvalido);
        }
        let id_pedido = bytes_a_u16(buf[0], buf[1]);
        let puerto = bytes_a_u16(buf[2], buf[3]);
        Ok(Self::new(id_pedido, puerto))
    }

    /// Convierte un AckDelegado en un array de bytes, incluyendo su tipo,
    /// para poder enviarlo por un socket
    pub fn as_bytes(&self) -> (r: Vec<u8>)
        ensures
            r@ == spec_ack_delegado_bytes(*self),
    {
        let mut buf_mensaje: Vec<u8> = Vec::new();
        buf_mensaje.push(3u8);
        let (alto_id, bajo_id) = u16_a_bytes(self.id_pedido);
        buf_mensaje.push(alto_id);
        buf_mensaje.push(bajo_id);
        let (alto_puerto, bajo_puerto) = u16_a_bytes(self.puerto);
        buf_mensaje.push(alto_puerto);
        buf_mensaje.push(bajo_puerto);
        proof {
            assert(buf_mensaje@ =~= spec_ack_delegado_bytes(*self));
        }
        buf_mensaje
    }
}

/// La decodificacion de la codificacion de un ack de delegacion devuelve
/// el mismo ack
pub proof fn lemma_ack_delegado_ida_y_vuelta(m: AckDelegado)
    ensures
        spec_decodificar_ack_delegado(spec_ack_delegado_bytes(m).skip(1)) == Some(m),
{
    assert(spec_ack_delegado_bytes(m).skip(1) =~= seq![
        alto_u16(m.id_pedido),
        bajo_u16(m.id_pedido),
        alto_u16(m.puerto),
        bajo_u16(m.puerto),
    ]);
}

/// Bytes de un rastro de locales: cada identificador en big-endian,
/// en el orden en que aparece
pub open spec fn spec_bytes_rastro(s: Seq<u16>) -> Seq<u8>
    decreases s.len(),
{
    if s.len() == 0 {
        Seq::empty()
    } else {
        spec_bytes_rastro(s.drop_last()) + seq![alto_u16(s.last()), bajo_u16(s.last())]
    }
}

/// Los primeros `n` identificadores leidos de los bytes de un rastro
pub open spec fn spec_ids_rastro(buf: Seq<u8>, n: nat) -> Seq<u16>
    decreases n,
{
    if n == 0 {
        Seq::empty()
    } else {
        spec_ids_rastro(buf, (n - 1) as nat).push(
            u16_de_bytes(buf[2 * (n - 1)], buf[2 * (n - 1) + 1]),
        )
    }
}

/// La lectura de un rastro solo mira los primeros `2 * n` bytes
pub proof fn lemma_ids_rastro_prefijo(b1: Seq<u8>, b2: Seq<u8>, n: nat)
    requires
        b1.len() >= 2 * n,
        b2.len() >= 2 * n,
        forall|k: int| 0 <= k < 2 * n ==> b1[k] == b2[k],
    ensures
        spec_ids_rastro(b1, n) == spec_ids_rastro(b2, n),
    decreases n,
{
    if n > 0 {
        lemma_ids_rastro_prefijo(b1, b2, (n - 1) as nat);
    }
}

/// Leer los bytes de un rastro devuelve los mismos identificadores
pub proof fn lemma_rastro_ida_y_vuelta(s: Seq<u16>)
    ensures
        spec_bytes_rastro(s).len() == 2 * s.len(),
        spec_ids_rastro(spec_bytes_rastro(s), s.len()) == s,
    decreases s.len(),
{
    if s.len() > 0 {
        let resto = s.drop_last();
        lemma_rastro_ida_y_vuelta(resto);
        let bytes = spec_bytes_rastro(s);
        assert forall|k: int| 0 <= k < 2 * resto.len() implies spec_bytes_rastro(resto)[k]
            == bytes[k] by {}
        lemma_ids_rastro_prefijo(spec_bytes_rastro(resto), bytes, resto.len());
        assert(bytes[2 * (s.len() - 1)] == alto_u16(s.last()));
        assert(bytes[2 * (s.len() - 1) + 1] == bajo_u16(s.last()));
        assert(spec_ids_rastro(bytes, s.len()) =~= s);
    } else {
        assert(spec_ids_rastro(spec_bytes_rastro(s), 0) =~= s);
    }
}

/// Contenido de un mensaje de delegacion, con el rastro visto como el
/// conjunto de locales que es: el orden de los identificadores en el
/// datagrama no significa nada
pub ghost struct ModeloDelegado {
    pub mensaje: MensajeEcommerce,
    pub puerto: u16,
    pub rastro: Set<u16>,
}

/// Datagrama completo de un mensaje de delegacion: tipo, cuerpo del
/// mensaje de ecommerce, puerto del ecommerce, largo del rastro y rastro
pub open spec fn spec_delegado_bytes(m: MensajeDelegado) -> Seq<u8> {
    seq![2u8] + spec_cuerpo_ecommerce(m.mensaje_ecommerce) + seq![
        alto_u16(m.puerto_ecommerce),
        bajo_u16(m.puerto_ecommerce),
        alto_u16(m.locales_ack.len() as u16),
        bajo_u16(m.locales_ack.len() as u16),
    ] + spec_bytes_rastro(m.locales_ack@)
}

/// Decodificacion del cuerpo de un mensaje de delegacion (sin el byte de
/// tipo); los bytes que sobren al final se ignoran
pub open spec fn spec_decodificar_delegado(buf: Seq<u8>) -> Option<ModeloDelegado> {
    if buf.len() < 9 {
        None
    } else {
        match spec_decodificar_ecommerce(buf) {
            None => None,
            Some(mensaje) => {
                let puerto = u16_de_bytes(buf[5], buf[6]);
                let n = u16_de_bytes(buf[7], buf[8]) as nat;
                if buf.len() < 9 + 2 * n {
                    None
                } else {
                    Some(
                        ModeloDelegado {
                            mensaje,
                            puerto,
                            rastro: spec_ids_rastro(buf.skip(9), n).to_set(),
                        },
                    )
                }
            },
        }
    }
}

/// Mensaje que envia un local a su siguiente cuando no puede
/// resolver un pedido por falta de stock. Incluye el mensaje
/// enviado por el ecommerce con toda la informacion del pedido,
/// el puerto del ecommerce que lo pidio y la lista de locales
/// que no pudieron resolver el pedido.
#[derive(Debug)]
pub struct MensajeDelegado {
    pub mensaje_ecommerce: MensajeEcommerce,
    pub puerto_ecommerce: u16,
    pub locales_ack: Vec<u16>,
}

impl MensajeDelegado {
    /// Contenido del mensaje, con el rastro como conjunto
    pub open spec fn modelo(self) -> ModeloDelegado {
        ModeloDelegado {
            mensaje: self.mensaje_ecommerce,
            puerto: self.puerto_ecommerce,
            rastro: self.locales_ack@.to_set(),
        }
    }

    /// El rastro nombra cada local a lo sumo una vez
    pub open spec fn rastro_valido(self) -> bool {
        self.locales_ack@.no_duplicates()
    }

    /// Crea un mensaje de delegacion
    pub fn new(mensaje_ecommerce: MensajeEcommerce, puerto: u16, locales_ack: Vec<u16>) -> (r:
        Self)
        requires
            locales_ack@.no_duplicates(),
        ensures
            r.mensaje_ecommerce == mensaje_ecommerce,
            r.puerto_ecommerce == puerto,
            r.locales_ack == locales_ack,
            r.rastro_valido(),
    {
        Self { mensaje_ecommerce, puerto_ecommerce: puerto, locales_ack }
    }

    /// Devuelve el pedido al que hace referencia el mensaje
    pub fn get_pedido(&self) -> (r: Pedido)
        ensures
            r == self.mensaje_ecommerce.pedido,
    {
        self.mensaje_ecommerce.pedido
    }

    /// Devuelve el id del pedido al que hace referencia el mensaje
    pub fn get_id(&self) -> (r: u16)
        ensures
            r == self.mensaje_ecommerce.id_pedido,
    {
        self.mensaje_ecommerce.id_pedido
    }

    /// Convierte bytes leidos en un mensaje del tipo MensajeDelegado
    /// # Errors:
    /// * si el buffer de lectura pasado tiene menos bytes que los
    ///   necesarios para completar el mensaje
    pub fn from_bytes(buf: &[u8]) -> (r: Result<Self, ErrorMensaje>)
        ensures
            match r {
                Ok(m) => {
                    &&& spec_decodificar_delegado(buf@) == Some(m.modelo())
                    &&& m.rastro_valido()
                    &&& m.locales_ack@.len() <= u16::MAX
                },
                Err(e) => {
                    &&& spec_decodificar_delegado(buf@) is None
                    &&& e == ErrorMensaje::MensajeInvalido
                },
            },
    {
        if buf.len() < 9 {
            return Err(ErrorMensaje::MensajeInvalido);
        }
        let mensaje_ecommerce = match MensajeEcommerce::from_bytes(buf) {
            Ok(m) => m,
            Err(e) => {
                return Err(e);
            },
        };
        let puerto_ecommerce = bytes_a_u16(buf[5], buf[6]);
        let n = bytes_a_u16(buf[7], buf[8]) as usize;
        if buf.len() < 9 + 2 * n {
            return Err(ErrorMensaje::MensajeInvalido);
        }
        let mut locales_ack: Vec<u16> = Vec::new();
        let ghost cola = buf@.skip(9);
        let mut i: usize = 0;
        while i < n
            invariant
                n <= u16::MAX,
                buf@.len() >= 9 + 2 * n,
                cola == buf@.skip(9),
                i <= n,
                locales_ack@.len() <= i,
                locales_ack@.no_duplicates(),
                locales_ack@.to_set() == spec_ids_rastro(cola, i as nat).to_set(),
            decreases n - i,
        {
            let id: u16 = bytes_a_u16(buf[9 + 2 * i], buf[10 + 2 * i]);
            proof {
                assert(cola[2 * i] == buf@[9 + 2 * i]);
                assert(cola[2 * i + 1] == buf@[9 + 2 * i + 1]);
            }
            let ghost antes = locales_ack@;
            if !contiene_id(&locales_ack, id) {
                locales_ack.push(id);
                proof {
                    assert forall|j: int, k: int|
                        0 <= j < k < locales_ack@.len() implies locales_ack@[j]
                        != locales_ack@[k] by {
                        if k < antes.len() {
                        } else {
                            assert(locales_ack@[k] == id);
                            assert(antes.contains(antes[j]));
                        }
                    }
                }
            }
            i = i + 1;
            proof {
                assert(spec_ids_rastro(cola, i as nat) == spec_ids_rastro(
                    cola,
                    (i - 1) as nat,
                ).push(id));
                assert(spec_ids_rastro(cola, (i - 1) as nat).push(id) =~= spec_ids_rastro(
                    cola,
                    (i - 1) as nat,
                ) + seq![id]);
                Seq::lemma_to_set_insert_commutes(spec_ids_rastro(cola, (i - 1) as nat), id);
                if antes.contains(id) {
                    assert(antes.to_set().insert(id) =~= antes.to_set());
                } else {
                    assert(antes.push(id) =~= antes + seq![id]);
                    Seq::lemma_to_set_insert_commutes(antes, id);
                }
                assert(locales_ack@.to_set() =~= spec_ids_rastro(cola, i as nat).to_set());
            }
        }
        Ok(Self { mensaje_ecommerce, puerto_ecommerce, locales_ack })
    }

    /// Convierte un MensajeDelegado en un array de bytes para poder
    /// enviarlo por un socket. El rastro debe entrar en un datagrama:
    /// diez bytes fijos y dos por cada local del rastro
    pub fn as_bytes(&self) -> (r: Vec<u8>)
        requires
            self.locales_ack@.len() <= (MAX_MENSAJE as int - 10) / 2,
        ensures
            r@ == spec_delegado_bytes(*self),
            r@.len() == 10 + 2 * self.locales_ack@.len(),
            r@.len() <= MAX_MENSAJE as int,
    {
        proof {
            lemma_rastro_ida_y_vuelta(self.locales_ack@);
        }
        let mut buf: Vec<u8> = Vec::new();
        buf.push(2u8);
        let (alto_id, bajo_id) = u16_a_bytes(self.mensaje_ecommerce.id_pedido);
        buf.push(alto_id);
        buf.push(bajo_id);
        let (alto_prod, bajo_prod) = u16_a_bytes(self.mensaje_ecommerce.pedido.get_id());
        buf.push(alto_prod);
        buf.push(bajo_prod);
        buf.push(self.mensaje_ecommerce.pedido.get_amount());
        let (alto_puerto, bajo_puerto) = u16_a_bytes(self.puerto_ecommerce);
        buf.push(alto_puerto);
        buf.push(bajo_puerto);
        let (alto_n, bajo_n) = u16_a_bytes(self.locales_ack.len() as u16);
        buf.push(alto_n);
        buf.push(bajo_n);
        let ghost encabezado = buf@;
        let mut i: usize = 0;
        while i < self.locales_ack.len()
            invariant
                encabezado.len() == 10,
                i <= self.locales_ack@.len(),
                buf@ == encabezado + spec_bytes_rastro(self.locales_ack@.take(i as int)),
            decreases self.locales_ack@.len() - i,
        {
            let (alto, bajo) = u16_a_bytes(self.locales_ack[i]);
            buf.push(alto);
            buf.push(bajo);
            i = i + 1;
            proof {
                let tomados = self.locales_ack@.take(i as int);
                assert(tomados.drop_last() =~= self.locales_ack@.take(i as int - 1));
                assert(tomados.last() == self.locales_ack@[i as int - 1]);
                assert(buf@ =~= encabezado + spec_bytes_rastro(tomados));
            }
        }
        proof {
            assert(self.locales_ack@.take(self.locales_ack@.len() as int) =~= self.locales_ack@);
            assert(buf@ =~= spec_delegado_bytes(*self));
        }
        buf
    }
}

/// Busca un identificador de local en un rastro
pub fn contiene_id(v: &Vec<u16>, id: u16) -> (r: bool)
    ensures
        r == v@.contains(id),
{
    let mut i: usize = 0;
    while i < v.len()
        invariant
            i <= v@.len(),
            forall|k: int| 0 <= k < i ==> v@[k] != id,
        decreases v@.len() - i,
    {
        if v[i] == id {
            return true;
        }
        i = i + 1;
    }
    false
}

/// La decodificacion de la codificacion de un mensaje de delegacion
/// devuelve el mismo mensaje, con el rastro como conjunto
#[verifier::rlimit(50)]
pub proof fn lemma_delegado_ida_y_vuelta(m: MensajeDelegado)
    requires
        m.locales_ack@.len() <= u16::MAX,
    ensures
        spec_decodificar_delegado(spec_delegado_bytes(m).skip(1)) == Some(m.modelo()),
{
    let cuerpo = spec_delegado_bytes(m).skip(1);
    lemma_rastro_ida_y_vuelta(m.locales_ack@);
    assert(cuerpo.len() == 9 + 2 * m.locales_ack@.len());
    assert(cuerpo.skip(2) =~= spec_pedido_bytes(m.mensaje_ecommerce.pedido) + seq![
        alto_u16(m.puerto_ecommerce),
        bajo_u16(m.puerto_ecommerce),
        alto_u16(m.locales_ack.len() as u16),
        bajo_u16(m.locales_ack.len() as u16),
    ] + spec_bytes_rastro(m.locales_ack@));
    assert(spec_decodificar_ecommerce(cuerpo) == Some(m.mensaje_ecommerce));
    assert(cuerpo.skip(9) =~= spec_bytes_rastro(m.locales_ack@));
    assert(u16_de_bytes(cuerpo[7], cuerpo[8]) == m.locales_ack@.len());
}

} // verus!

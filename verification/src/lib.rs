//! Nucleo verificado de una red de pedidos distribuida: una rueda de locales
//! atiende pedidos de ecommerces, delegando al siguiente local cuando falta
//! stock. Aqui viven el codec de mensajes, el guardian de stock, el mensajero,
//! la maquina de estados del servidor y la del cliente.

pub mod aliases;
pub mod desconexion;
pub mod ecommerce;
pub mod errores;
pub mod local;
pub mod mensajes;
pub mod pedido;

use vstd::prelude::*;
use vstd::string::StringExecFns;

verus! {

/// Caracter decimal de un digito
pub open spec fn caracter_digito(d: int) -> char {
    if d == 0 { '0' }
    else if d == 1 { '1' }
    else if d == 2 { '2' }
    else if d == 3 { '3' }
    else if d == 4 { '4' }
    else if d == 5 { '5' }
    else if d == 6 { '6' }
    else if d == 7 { '7' }
    else if d == 8 { '8' }
    else { '9' }
}

/// Escritura decimal de un natural, como secuencia de caracteres
pub open spec fn decimal(n: int) -> Seq<char>
    decreases n,
{
    if n < 10 {
        seq![caracter_digito(n)]
    } else {
        decimal(n / 10) + seq![caracter_digito(n % 10)]
    }
}

/// Direccion IP local con el puerto dado, como secuencia de caracteres
pub open spec fn direccion_con_puerto(puerto: u16) -> Seq<char> {
    "127.0.0.1:"@ + decimal(puerto as int)
}

/// Agrega a un texto el caracter decimal de un digito
fn agregar_digito(s: &mut String, d: u16)
    requires
        d < 10,
    ensures
        final(s)@ == old(s)@ + seq![caracter_digito(d as int)],
{
    proof {
        reveal_strlit("0");
        reveal_strlit("1");
        reveal_strlit("2");
        reveal_strlit("3");
        reveal_strlit("4");
        reveal_strlit("5");
        reveal_strlit("6");
        reveal_strlit("7");
        reveal_strlit("8");
        reveal_strlit("9");
    }
    match d {
        0 => s.append("0"),
        1 => s.append("1"),
        2 => s.append("2"),
        3 => s.append("3"),
        4 => s.append("4"),
        5 => s.append("5"),
        6 => s.append("6"),
        7 => s.append("7"),
        8 => s.append("8"),
        _ => s.append("9"),
    }
    proof {
        assert(final(s)@ =~= old(s)@ + seq![caracter_digito(d as int)]);
    }
}

/// Escribe un numero en notacion decimal al final de un texto
fn agregar_decimal(s: &mut String, n: u16)
    ensures
        final(s)@ == old(s)@ + decimal(n as int),
    decreases n,
{
    if n < 10 {
        agregar_digito(s, n);
    } else {
        agregar_decimal(s, n / 10);
        agregar_digito(s, n % 10);
        proof {
            assert(old(s)@ + decimal((n / 10) as int) + seq![caracter_digito((n % 10) as int)]
                =~= old(s)@ + decimal(n as int));
        }
    }
}

/// Convierte un puerto a la direccion IP local correspondiente
fn direccion_local(puerto: u16) -> (r: String)
    ensures
        r@ == direccion_con_puerto(puerto),
{
    let mut s = String::from_str("127.0.0.1:");
    agregar_decimal(&mut s, puerto);
    s
}

/// Cantidad de locales a ejecutar
pub const CANTIDAD_LOCALES: u8 = 4;

/// Longitud maxima de los mensajes enviados entre los procesos
pub const MAX_MENSAJE: u8 = 100;

/// Convierte un identificador de un local, a su direccion IP
pub fn id_a_dir_local(id: u16) -> (r: String)
    requires
        id < CANTIDAD_LOCALES as u16,
    ensures
        r@ == direccion_con_puerto((9000 + id) as u16),
{
    direccion_local(9000 + id)
}

/// Convierte un identificador de un local, a la direccion IP de su medico
pub fn id_a_dir_medico(id: u16) -> (r: String)
    requires
        id < CANTIDAD_LOCALES as u16,
    ensures
        r@ == direccion_con_puerto((10000 + id) as u16),
{
    direccion_local(10000 + id)
}

/// Convierte un puerto de ecommerce a su direccion IP
pub fn puerto_a_ip(puerto: u16) -> (r: String)
    ensures
        r@ == direccion_con_puerto(puerto),
{
    direccion_local(puerto)
}

/// Convierte un puerto de local a su identificador
pub fn puerto_a_id(puerto: u16) -> (id: u16)
    requires
        puerto >= 9000,
    ensures
        id == puerto - 9000,
{
    puerto - 9000
}

/// Obtiene el siguiente local en la rueda, dado un local
pub fn siguiente_id_local(id: u16) -> (sig: u16)
    requires
        id < CANTIDAD_LOCALES as u16,
    ensures
        sig == (id + 1) % (CANTIDAD_LOCALES as int),
        sig < CANTIDAD_LOCALES as u16,
{
    (id + 1) % (CANTIDAD_LOCALES as u16)
}

} // verus!

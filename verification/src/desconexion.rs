//! Señales externas de corte y retorno de la conexion de un local

pub mod dios;

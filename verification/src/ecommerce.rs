//! Lado cliente del sistema: el manejo de los pedidos que un ecommerce
//! envia a la rueda de locales

pub mod handler;

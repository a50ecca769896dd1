pub mod packet;

//! A verified model of the i.MX RT eFlexPWM driver.
pub mod ccm;
pub mod pwm;
pub mod registers;
pub mod time;

//! A reverse-Polish-notation desk calculator core: a lexer that splits an
//! input line into numeric literals and operator bytes, an operator table,
//! and a stack machine that carries out each operator against a value stack.
//!
//! The machine is generic over its value type. Work on the values themselves
//! (reading a literal, arithmetic, comparisons) is handed to the caller as a
//! request, and the caller's answer is fed back; everything else (operand
//! order, stack depth checks, what is pushed, popped, printed or reported) is
//! decided and proved here.
pub mod error;
pub mod laws;
pub mod lexer;
pub mod machine;
pub mod stack;
pub mod symbol;

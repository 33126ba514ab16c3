//! A call to another contract, put together before it is sent.

use vstd::prelude::*;
use vstd::string::StringSliceAdditionalSpecFns;
use crate::address::Address;
use crate::codec::{be_bytes, to_bytes_be, BigUintApi};
use crate::hex_call_data::{with_argument, HexCallDataSerializer};
use crate::sc_error::SCError;
use crate::token_identifier::TokenIdentifier;

verus! {

/// The endpoint that moves tokens other than the native currency.
pub const ESDT_TRANSFER_STRING: &'static str = "ESDTTransfer";

/// The call data of a token transfer that goes on to call an endpoint: the
/// transfer endpoint with the token name, the amount and the endpoint name as
/// its arguments.
pub open spec fn esdt_transfer_data(token_name: Seq<u8>, payment: nat, endpoint_name: Seq<u8>) -> Seq<
    u8,
> {
    with_argument(
        with_argument(
            with_argument(ESDT_TRANSFER_STRING.spec_bytes(), token_name),
            be_bytes(payment),
        ),
        endpoint_name,
    )
}

/// A value that can be written as one argument of a call.
pub trait AsyncCallArg: Sized {
    /// What writing the value as an argument comes to: the bytes that the
    /// argument is made of, or, for a value that cannot be written, the bytes
    /// of the message that says why.
    spec fn arg_encoding(&self) -> Result<Seq<u8>, Seq<u8>>;

    /// Appends the value to the call data as one argument. A value that
    /// cannot be written gives its error, and the call data stays as it is.
    fn push_async_arg(&self, serializer: &mut HexCallDataSerializer) -> (r: Result<(), SCError>)
        ensures
            match self.arg_encoding() {
                Ok(bytes) => r is Ok && final(serializer)@ == with_argument(
                    old(serializer)@,
                    bytes,
                ),
                Err(message) => r matches Err(e) && e@ == message && final(serializer)@ == old(
                    serializer,
                )@,
            },
    ;
}

impl AsyncCallArg for Address {
    open spec fn arg_encoding(&self) -> Result<Seq<u8>, Seq<u8>> {
        Ok(self@)
    }

    fn push_async_arg(&self, serializer: &mut HexCallDataSerializer) -> (r: Result<(), SCError>) {
        let bytes = self.to_vec();
        serializer.push_argument_bytes(bytes.as_slice());
        Ok(())
    }
}

impl AsyncCallArg for u128 {
    open spec fn arg_encoding(&self) -> Result<Seq<u8>, Seq<u8>> {
        Ok(be_bytes(*self as nat))
    }

    fn push_async_arg(&self, serializer: &mut HexCallDataSerializer) -> (r: Result<(), SCError>) {
        let bytes = to_bytes_be(*self);
        serializer.push_argument_bytes(bytes.as_slice());
        Ok(())
    }
}

impl AsyncCallArg for u64 {
    open spec fn arg_encoding(&self) -> Result<Seq<u8>, Seq<u8>> {
        Ok(be_bytes(*self as nat))
    }

    fn push_async_arg(&self, serializer: &mut HexCallDataSerializer) -> (r: Result<(), SCError>) {
        let bytes = to_bytes_be(*self as u128);
        serializer.push_argument_bytes(bytes.as_slice());
        Ok(())
    }
}

impl AsyncCallArg for usize {
    open spec fn arg_encoding(&self) -> Result<Seq<u8>, Seq<u8>> {
        Ok(be_bytes(*self as nat))
    }

    fn push_async_arg(&self, serializer: &mut HexCallDataSerializer) -> (r: Result<(), SCError>) {
        let bytes = to_bytes_be(*self as u128);
        serializer.push_argument_bytes(bytes.as_slice());
        Ok(())
    }
}

impl AsyncCallArg for Vec<u8> {
    open spec fn arg_encoding(&self) -> Result<Seq<u8>, Seq<u8>> {
        Ok(self@)
    }

    fn push_async_arg(&self, serializer: &mut HexCallDataSerializer) -> (r: Result<(), SCError>) {
        serializer.push_argument_bytes(self.as_slice());
        Ok(())
    }
}

/// What is to be called when the answer to an asynchronous call comes back.
#[derive(Debug)]
pub struct CallbackCall {
    pub closure_data: HexCallDataSerializer,
}

impl CallbackCall {
    /// A callback by name, with no argument yet.
    pub fn new(callback_name: &[u8]) -> (callback: Self)
        ensures
            callback.closure_data@ == callback_name@,
    {
        CallbackCall { closure_data: HexCallDataSerializer::new(callback_name) }
    }

    /// Appends an argument for the callback.
    pub fn push_argument_raw_bytes(&mut self, bytes: &[u8])
        ensures
            final(self).closure_data@ == with_argument(old(self).closure_data@, bytes@),
    {
        self.closure_data.push_argument_bytes(bytes);
    }
}

/// What an asynchronous call consists of.
pub struct AsyncCallView<BigUint> {
    /// The contract that is called.
    pub to: Address,
    /// The native currency sent along.
    pub egld_payment: BigUint,
    /// The call data: the endpoint and its arguments.
    pub hex_data: Seq<u8>,
    /// What is kept for the callback.
    pub callback_data: Seq<u8>,
}

/// An asynchronous call to another contract. Nothing happens until the call
/// is sent.
#[must_use]
pub struct AsyncCall<BigUint: BigUintApi> {
    to: Address,
    egld_payment: BigUint,
    pub hex_data: HexCallDataSerializer,
    callback_data: HexCallDataSerializer,
}

impl<BigUint: BigUintApi> View for AsyncCall<BigUint> {
    type V = AsyncCallView<BigUint>;

    closed spec fn view(&self) -> AsyncCallView<BigUint> {
        AsyncCallView {
            to: self.to,
            egld_payment: self.egld_payment,
            hex_data: self.hex_data@,
            callback_data: self.callback_data@,
        }
    }
}

impl<BigUint: BigUintApi> AsyncCall<BigUint> {
    /// A call to the endpoint that sends the native currency along.
    pub fn new_egld(to: Address, egld_payment: BigUint, endpoint_name: &[u8]) -> (call: Self)
        ensures
            call@ == (AsyncCallView {
                to,
                egld_payment,
                hex_data: endpoint_name@,
                callback_data: Seq::<u8>::empty(),
            }),
    {
        let empty: Vec<u8> = Vec::new();
        AsyncCall {
            to,
            egld_payment,
            hex_data: HexCallDataSerializer::new(endpoint_name),
            callback_data: HexCallDataSerializer::new(empty.as_slice()),
        }
    }

    /// A call to the endpoint that sends a token other than the native
    /// currency along. The call goes to the transfer endpoint, which passes it
    /// on; no native currency is sent.
    pub fn new_esdt(
        to: Address,
        esdt_token_name: &[u8],
        esdt_payment: &BigUint,
        endpoint_name: &[u8],
    ) -> (call: Self)
        ensures
            call@.to == to,
            call@.egld_payment.value() == 0,
            call@.hex_data == esdt_transfer_data(
                esdt_token_name@,
                esdt_payment.value(),
                endpoint_name@,
            ),
            call@.callback_data == Seq::<u8>::empty(),
    {
        let mut hex_data = HexCallDataSerializer::new(ESDT_TRANSFER_STRING.as_bytes());
        hex_data.push_argument_bytes(esdt_token_name);
        hex_data.push_argument_bytes(esdt_payment.to_bytes_be().as_slice());
        hex_data.push_argument_bytes(endpoint_name);
        let empty: Vec<u8> = Vec::new();
        AsyncCall {
            to,
            egld_payment: BigUint::zero(),
            hex_data,
            callback_data: HexCallDataSerializer::new(empty.as_slice()),
        }
    }

    /// A call to the endpoint that sends the payment along, in the native
    /// currency or in another token.
    pub fn new(to: Address, token: TokenIdentifier, payment: BigUint, endpoint_name: &[u8]) -> (call:
        Self)
        ensures
            call@.to == to,
            call@.callback_data == Seq::<u8>::empty(),
            token@.len() == 0 ==> call@.egld_payment == payment && call@.hex_data == endpoint_name@,
            token@.len() != 0 ==> call@.egld_payment.value() == 0 && call@.hex_data
                == esdt_transfer_data(token@, payment.value(), endpoint_name@),
    {
        if token.is_egld() {
            Self::new_egld(to, payment, endpoint_name)
        } else {
            Self::new_esdt(to, token.as_slice(), &payment, endpoint_name)
        }
    }

    /// The same call, with the callback to go with it.
    pub fn with_callback(self, callback: CallbackCall) -> (call: Self)
        ensures
            call@ == (AsyncCallView { callback_data: callback.closure_data@, ..self@ }),
    {
        AsyncCall {
            to: self.to,
            egld_payment: self.egld_payment,
            hex_data: self.hex_data,
            callback_data: callback.closure_data,
        }
    }

    /// Appends an argument to the call.
    pub fn push_argument_raw_bytes(&mut self, bytes: &[u8])
        ensures
            final(self)@ == (AsyncCallView {
                hex_data: with_argument(old(self)@.hex_data, bytes@),
                ..old(self)@
            }),
    {
        self.hex_data.push_argument_bytes(bytes);
    }

    /// Appends an argument meant for the callback. It travels with the call:
    /// it is written behind the arguments that the call data holds, and the
    /// callback data stays as it is.
    pub fn push_callback_argument_raw_bytes(&mut self, bytes: &[u8])
        ensures
            final(self)@ == (AsyncCallView {
                hex_data: with_argument(old(self)@.hex_data, bytes@),
                ..old(self)@
            }),
    {
        self.hex_data.push_argument_bytes(bytes);
    }

    /// Appends a value to the call as one argument: it succeeds for every
    /// value that can be written, and the argument then stands behind those
    /// that the call data held. For a value that cannot be written the error
    /// of the value comes back and the call is as it was; it is for the caller
    /// to leave.
    pub fn push_argument_or_exit<A: AsyncCallArg>(&mut self, arg: A) -> (r: Result<(), SCError>)
        ensures
            match arg.arg_encoding() {
                Ok(bytes) => r is Ok && final(self)@ == (AsyncCallView {
                    hex_data: with_argument(old(self)@.hex_data, bytes),
                    ..old(self)@
                }),
                Err(message) => r matches Err(e) && e@ == message && final(self)@ == old(self)@,
            },
    {
        arg.push_async_arg(&mut self.hex_data)
    }

    /// The contract that is called.
    pub fn to(&self) -> (to: &Address)
        ensures
            *to == self@.to,
    {
        &self.to
    }

    /// The native currency sent along.
    pub fn egld_payment(&self) -> (payment: &BigUint)
        ensures
            *payment == self@.egld_payment,
    {
        &self.egld_payment
    }

    /// What is kept for the callback.
    pub fn callback_data(&self) -> (data: &[u8])
        ensures
            data@ == self@.callback_data,
    {
        self.callback_data.as_slice()
    }
}

} // verus!

//! Functions as handlers: `Command` for every function of one to eight
//! extractable parameters that returns `Result<(), Res>`.
//!
//! For each number of parameters, `ready` and `outcome` say in the open what
//! `Command::ready` and `Command::outcome` are for such a function, and a
//! lemma states that they are.

use crate::commands::extract::Tagged;
use crate::commands::sealed::Hidden;
use crate::commands::{rejected, settled, Command, FromMessage, IntoError, Message, MessageParts};
use crate::errors::Errors;
use vstd::prelude::*;

verus! {

/// The extraction of one parameter from the extensions `before`: either its
/// rejection ends the invocation and shows in `r`, or `then` holds of the
/// extracted value and of the extensions that the extraction left.
pub open spec fn extracted<V: Tagged, T: FromMessage<V>>(
    before: Map<u64, V>,
    r: Result<(), Errors>,
    then: spec_fn(T, Map<u64, V>) -> bool,
) -> bool {
    exists|after: Map<u64, V>, e: Result<T, T::Rejection>|
        #[trigger] T::extracts(before, after, e) && match e {
            Err(rejection) => rejected(rejection, r),
            Ok(value) => then(value, after),
        }
}

/// A handler of one parameter accepts whatever its extractors yield.
pub open spec fn ready1<F, Res, T1>(f: F) -> bool where
    F: FnOnce(T1) -> Result<(), Res>,
 {
    forall|a1: T1| call_requires(f, (a1,))
}

/// What invoking a handler of one parameter may yield: the parameter is
/// extracted from the message; its rejection ends the invocation,
/// otherwise the handler runs on it.
pub open spec fn outcome1<V, F, Res, T1>(
    f: F,
    extensions: Map<u64, V>,
    r: Result<(), Errors>,
) -> bool where
    V: Tagged,
    F: FnOnce(T1) -> Result<(), Res>,
    Res: IntoError,
    T1: FromMessage<V>,
 {
    extracted::<V, T1>(extensions, r, |a1: T1, m1: Map<u64, V>|
        exists|res: Result<(), Res>|
            #[trigger] call_ensures(f, (a1,), res)
                && settled(res, r))
}

impl<V, F, Res, T1> Command<V, (T1,)> for F where
    V: Tagged,
    F: FnOnce(T1) -> Result<(), Res>,
    Res: IntoError,
    T1: FromMessage<V>,
 {
    type Sealed = Hidden;

    open spec fn ready(&self) -> bool {
        ready1::<F, Res, T1>(*self)
    }

    open spec fn outcome(&self, extensions: Map<u64, V>, r: Result<(), Errors>) -> bool {
        outcome1::<V, F, Res, T1>(*self, extensions, r)
    }

    fn call(self, msg: Message<V>) -> (r: Result<(), Errors>) {
        let mut msg = MessageParts::new(msg);
        let a1 = match T1::from_message(&mut msg) {
            Ok(value) => value,
            Err(rejection) => return Err(rejection.into_error()),
        };
        match self(a1) {
            Ok(_) => Ok(()),
            Err(failure) => Err(failure.into_error()),
        }
    }
}

/// For a handler of one parameter, `Command::ready` is `ready1` and
/// `Command::outcome` is `outcome1`.
pub proof fn lemma_command1<V, F, Res, T1>(f: F) where
    V: Tagged,
    F: FnOnce(T1) -> Result<(), Res>,
    Res: IntoError,
    T1: FromMessage<V>,

    ensures
        Command::<V, (T1,)>::ready(&f)
            == ready1::<F, Res, T1>(f),
        forall|extensions: Map<u64, V>, r: Result<(), Errors>|
            #[trigger] Command::<V, (T1,)>::outcome(&f, extensions, r)
                == outcome1::<V, F, Res, T1>(f, extensions, r),
{
}

/// A handler of two parameters accepts whatever its extractors yield.
pub open spec fn ready2<F, Res, T1, T2>(f: F) -> bool where
    F: FnOnce(T1, T2) -> Result<(), Res>,
 {
    forall|a1: T1, a2: T2| call_requires(f, (a1, a2))
}

/// What invoking a handler of two parameters may yield: the parameters
/// are extracted in declared order, each from what the one before it left;
/// the first rejection ends the invocation, otherwise the handler runs on
/// the extracted values.
pub open spec fn outcome2<V, F, Res, T1, T2>(
    f: F,
    extensions: Map<u64, V>,
    r: Result<(), Errors>,
) -> bool where
    V: Tagged,
    F: FnOnce(T1, T2) -> Result<(), Res>,
    Res: IntoError,
    T1: FromMessage<V>,
    T2: FromMessage<V>,
 {
    extracted::<V, T1>(extensions, r, |a1: T1, m1: Map<u64, V>|
        extracted::<V, T2>(m1, r, |a2: T2, m2: Map<u64, V>|
            exists|res: Result<(), Res>|
                #[trigger] call_ensures(f, (a1, a2), res)
                    && settled(res, r)))
}

impl<V, F, Res, T1, T2> Command<V, (T1, T2)> for F where
    V: Tagged,
    F: FnOnce(T1, T2) -> Result<(), Res>,
    Res: IntoError,
    T1: FromMessage<V>,
    T2: FromMessage<V>,
 {
    type Sealed = Hidden;

    open spec fn ready(&self) -> bool {
        ready2::<F, Res, T1, T2>(*self)
    }

    open spec fn outcome(&self, extensions: Map<u64, V>, r: Result<(), Errors>) -> bool {
        outcome2::<V, F, Res, T1, T2>(*self, extensions, r)
    }

    fn call(self, msg: Message<V>) -> (r: Result<(), Errors>) {
        let mut msg = MessageParts::new(msg);
        let a1 = match T1::from_message(&mut msg) {
            Ok(value) => value,
            Err(rejection) => return Err(rejection.into_error()),
        };
        let a2 = match T2::from_message(&mut msg) {
            Ok(value) => value,
            Err(rejection) => return Err(rejection.into_error()),
        };
        match self(a1, a2) {
            Ok(_) => Ok(()),
            Err(failure) => Err(failure.into_error()),
        }
    }
}

/// For a handler of two parameters, `Command::ready` is `ready2` and
/// `Command::outcome` is `outcome2`.
pub proof fn lemma_command2<V, F, Res, T1, T2>(f: F) where
    V: Tagged,
    F: FnOnce(T1, T2) -> Result<(), Res>,
    Res: IntoError,
    T1: FromMessage<V>,
    T2: FromMessage<V>,

    ensures
        Command::<V, (T1, T2)>::ready(&f)
            == ready2::<F, Res, T1, T2>(f),
        forall|extensions: Map<u64, V>, r: Result<(), Errors>|
            #[trigger] Command::<V, (T1, T2)>::outcome(&f, extensions, r)
                == outcome2::<V, F, Res, T1, T2>(f, extensions, r),
{
}

/// A handler of three parameters accepts whatever its extractors yield.
pub open spec fn ready3<F, Res, T1, T2, T3>(f: F) -> bool where
    F: FnOnce(T1, T2, T3) -> Result<(), Res>,
 {
    forall|a1: T1, a2: T2, a3: T3| call_requires(f, (a1, a2, a3))
}

/// What invoking a handler of three parameters may yield: the parameters
/// are extracted in declared order, each from what the one before it left;
/// the first rejection ends the invocation, otherwise the handler runs on
/// the extracted values.
pub open spec fn outcome3<V, F, Res, T1, T2, T3>(
    f: F,
    extensions: Map<u64, V>,
    r: Result<(), Errors>,
) -> bool where
    V: Tagged,
    F: FnOnce(T1, T2, T3) -> Result<(), Res>,
    Res: IntoError,
    T1: FromMessage<V>,
    T2: FromMessage<V>,
    T3: FromMessage<V>,
 {
    extracted::<V, T1>(extensions, r, |a1: T1, m1: Map<u64, V>|
        extracted::<V, T2>(m1, r, |a2: T2, m2: Map<u64, V>|
            extracted::<V, T3>(m2, r, |a3: T3, m3: Map<u64, V>|
                exists|res: Result<(), Res>|
                    #[trigger] call_ensures(f, (a1, a2, a3), res)
                        && settled(res, r))))
}

impl<V, F, Res, T1, T2, T3> Command<V, (T1, T2, T3)> for F where
    V: Tagged,
    F: FnOnce(T1, T2, T3) -> Result<(), Res>,
    Res: IntoError,
    T1: FromMessage<V>,
    T2: FromMessage<V>,
    T3: FromMessage<V>,
 {
    type Sealed = Hidden;

    open spec fn ready(&self) -> bool {
        ready3::<F, Res, T1, T2, T3>(*self)
    }

    open spec fn outcome(&self, extensions: Map<u64, V>, r: Result<(), Errors>) -> bool {
        outcome3::<V, F, Res, T1, T2, T3>(*self, extensions, r)
    }

    fn call(self, msg: Message<V>) -> (r: Result<(), Errors>) {
        let mut msg = MessageParts::new(msg);
        let a1 = match T1::from_message(&mut msg) {
            Ok(value) => value,
            Err(rejection) => return Err(rejection.into_error()),
        };
        let a2 = match T2::from_message(&mut msg) {
            Ok(value) => value,
            Err(rejection) => return Err(rejection.into_error()),
        };
        let a3 = match T3::from_message(&mut msg) {
            Ok(value) => value,
            Err(rejection) => return Err(rejection.into_error()),
        };
        match self(a1, a2, a3) {
            Ok(_) => Ok(()),
            Err(failure) => Err(failure.into_error()),
        }
    }
}

/// For a handler of three parameters, `Command::ready` is `ready3` and
/// `Command::outcome` is `outcome3`.
pub proof fn lemma_command3<V, F, Res, T1, T2, T3>(f: F) where
    V: Tagged,
    F: FnOnce(T1, T2, T3) -> Result<(), Res>,
    Res: IntoError,
    T1: FromMessage<V>,
    T2: FromMessage<V>,
    T3: FromMessage<V>,

    ensures
        Command::<V, (T1, T2, T3)>::ready(&f)
            == ready3::<F, Res, T1, T2, T3>(f),
        forall|extensions: Map<u64, V>, r: Result<(), Errors>|
            #[trigger] Command::<V, (T1, T2, T3)>::outcome(&f, extensions, r)
                == outcome3::<V, F, Res, T1, T2, T3>(f, extensions, r),
{
}

/// A handler of four parameters accepts whatever its extractors yield.
pub open spec fn ready4<F, Res, T1, T2, T3, T4>(f: F) -> bool where
    F: FnOnce(T1, T2, T3, T4) -> Result<(), Res>,
 {
    forall|a1: T1, a2: T2, a3: T3, a4: T4| call_requires(f, (a1, a2, a3, a4))
}

/// What invoking a handler of four parameters may yield: the parameters
/// are extracted in declared order, each from what the one before it left;
/// the first rejection ends the invocation, otherwise the handler runs on
/// the extracted values.
pub open spec fn outcome4<V, F, Res, T1, T2, T3, T4>(
    f: F,
    extensions: Map<u64, V>,
    r: Result<(), Errors>,
) -> bool where
    V: Tagged,
    F: FnOnce(T1, T2, T3, T4) -> Result<(), Res>,
    Res: IntoError,
    T1: FromMessage<V>,
    T2: FromMessage<V>,
    T3: FromMessage<V>,
    T4: FromMessage<V>,
 {
    extracted::<V, T1>(extensions, r, |a1: T1, m1: Map<u64, V>|
        extracted::<V, T2>(m1, r, |a2: T2, m2: Map<u64, V>|
            extracted::<V, T3>(m2, r, |a3: T3, m3: Map<u64, V>|
                extracted::<V, T4>(m3, r, |a4: T4, m4: Map<u64, V>|
                    exists|res: Result<(), Res>|
                        #[trigger] call_ensures(f, (a1, a2, a3, a4), res)
                            && settled(res, r)))))
}

impl<V, F, Res, T1, T2, T3, T4> Command<V, (T1, T2, T3, T4)> for F where
    V: Tagged,
    F: FnOnce(T1, T2, T3, T4) -> Result<(), Res>,
    Res: IntoError,
    T1: FromMessage<V>,
    T2: FromMessage<V>,
    T3: FromMessage<V>,
    T4: FromMessage<V>,
 {
    type Sealed = Hidden;

    open spec fn ready(&self) -> bool {
        ready4::<F, Res, T1, T2, T3, T4>(*self)
    }

    open spec fn outcome(&self, extensions: Map<u64, V>, r: Result<(), Errors>) -> bool {
        outcome4::<V, F, Res, T1, T2, T3, T4>(*self, extensions, r)
    }

    fn call(self, msg: Message<V>) -> (r: Result<(), Errors>) {
        let mut msg = MessageParts::new(msg);
        let a1 = match T1::from_message(&mut msg) {
            Ok(value) => value,
            Err(rejection) => return Err(rejection.into_error()),
        };
        let a2 = match T2::from_message(&mut msg) {
            Ok(value) => value,
            Err(rejection) => return Err(rejection.into_error()),
        };
        let a3 = match T3::from_message(&mut msg) {
            Ok(value) => value,
            Err(rejection) => return Err(rejection.into_error()),
        };
        let a4 = match T4::from_message(&mut msg) {
            Ok(value) => value,
            Err(rejection) => return Err(rejection.into_error()),
        };
        match self(a1, a2, a3, a4) {
            Ok(_) => Ok(()),
            Err(failure) => Err(failure.into_error()),
        }
    }
}

/// For a handler of four parameters, `Command::ready` is `ready4` and
/// `Command::outcome` is `outcome4`.
pub proof fn lemma_command4<V, F, Res, T1, T2, T3, T4>(f: F) where
    V: Tagged,
    F: FnOnce(T1, T2, T3, T4) -> Result<(), Res>,
    Res: IntoError,
    T1: FromMessage<V>,
    T2: FromMessage<V>,
    T3: FromMessage<V>,
    T4: FromMessage<V>,

    ensures
        Command::<V, (T1, T2, T3, T4)>::ready(&f)
            == ready4::<F, Res, T1, T2, T3, T4>(f),
        forall|extensions: Map<u64, V>, r: Result<(), Errors>|
            #[trigger] Command::<V, (T1, T2, T3, T4)>::outcome(&f, extensions, r)
                == outcome4::<V, F, Res, T1, T2, T3, T4>(f, extensions, r),
{
}

/// A handler of five parameters accepts whatever its extractors yield.
pub open spec fn ready5<F, Res, T1, T2, T3, T4, T5>(f: F) -> bool where
    F: FnOnce(T1, T2, T3, T4, T5) -> Result<(), Res>,
 {
    forall|a1: T1, a2: T2, a3: T3, a4: T4, a5: T5| call_requires(f, (a1, a2, a3, a4, a5))
}

/// What invoking a handler of five parameters may yield: the parameters
/// are extracted in declared order, each from what the one before it left;
/// the first rejection ends the invocation, otherwise the handler runs on
/// the extracted values.
pub open spec fn outcome5<V, F, Res, T1, T2, T3, T4, T5>(
    f: F,
    extensions: Map<u64, V>,
    r: Result<(), Errors>,
) -> bool where
    V: Tagged,
    F: FnOnce(T1, T2, T3, T4, T5) -> Result<(), Res>,
    Res: IntoError,
    T1: FromMessage<V>,
    T2: FromMessage<V>,
    T3: FromMessage<V>,
    T4: FromMessage<V>,
    T5: FromMessage<V>,
 {
    extracted::<V, T1>(extensions, r, |a1: T1, m1: Map<u64, V>|
        extracted::<V, T2>(m1, r, |a2: T2, m2: Map<u64, V>|
            extracted::<V, T3>(m2, r, |a3: T3, m3: Map<u64, V>|
                extracted::<V, T4>(m3, r, |a4: T4, m4: Map<u64, V>|
                    extracted::<V, T5>(m4, r, |a5: T5, m5: Map<u64, V>|
                        exists|res: Result<(), Res>|
                            #[trigger] call_ensures(f, (a1, a2, a3, a4, a5), res)
                                && settled(res, r))))))
}

impl<V, F, Res, T1, T2, T3, T4, T5> Command<V, (T1, T2, T3, T4, T5)> for F where
    V: Tagged,
    F: FnOnce(T1, T2, T3, T4, T5) -> Result<(), Res>,
    Res: IntoError,
    T1: FromMessage<V>,
    T2: FromMessage<V>,
    T3: FromMessage<V>,
    T4: FromMessage<V>,
    T5: FromMessage<V>,
 {
    type Sealed = Hidden;

    open spec fn ready(&self) -> bool {
        ready5::<F, Res, T1, T2, T3, T4, T5>(*self)
    }

    open spec fn outcome(&self, extensions: Map<u64, V>, r: Result<(), Errors>) -> bool {
        outcome5::<V, F, Res, T1, T2, T3, T4, T5>(*self, extensions, r)
    }

    fn call(self, msg: Message<V>) -> (r: Result<(), Errors>) {
        let mut msg = MessageParts::new(msg);
        let a1 = match T1::from_message(&mut msg) {
            Ok(value) => value,
            Err(rejection) => return Err(rejection.into_error()),
        };
        let a2 = match T2::from_message(&mut msg) {
            Ok(value) => value,
            Err(rejection) => return Err(rejection.into_error()),
        };
        let a3 = match T3::from_message(&mut msg) {
            Ok(value) => value,
            Err(rejection) => return Err(rejection.into_error()),
        };
        let a4 = match T4::from_message(&mut msg) {
            Ok(value) => value,
            Err(rejection) => return Err(rejection.into_error()),
        };
        let a5 = match T5::from_message(&mut msg) {
            Ok(value) => value,
            Err(rejection) => return Err(rejection.into_error()),
        };
        match self(a1, a2, a3, a4, a5) {
            Ok(_) => Ok(()),
            Err(failure) => Err(failure.into_error()),
        }
    }
}

/// For a handler of five parameters, `Command::ready` is `ready5` and
/// `Command::outcome` is `outcome5`.
pub proof fn lemma_command5<V, F, Res, T1, T2, T3, T4, T5>(f: F) where
    V: Tagged,
    F: FnOnce(T1, T2, T3, T4, T5) -> Result<(), Res>,
    Res: IntoError,
    T1: FromMessage<V>,
    T2: FromMessage<V>,
    T3: FromMessage<V>,
    T4: FromMessage<V>,
    T5: FromMessage<V>,

    ensures
        Command::<V, (T1, T2, T3, T4, T5)>::ready(&f)
            == ready5::<F, Res, T1, T2, T3, T4, T5>(f),
        forall|extensions: Map<u64, V>, r: Result<(), Errors>|
            #[trigger] Command::<V, (T1, T2, T3, T4, T5)>::outcome(&f, extensions, r)
                == outcome5::<V, F, Res, T1, T2, T3, T4, T5>(f, extensions, r),
{
}

/// A handler of six parameters accepts whatever its extractors yield.
pub open spec fn ready6<F, Res, T1, T2, T3, T4, T5, T6>(f: F) -> bool where
    F: FnOnce(T1, T2, T3, T4, T5, T6) -> Result<(), Res>,
 {
    forall|a1: T1, a2: T2, a3: T3, a4: T4, a5: T5, a6: T6|
        call_requires(f, (a1, a2, a3, a4, a5, a6))
}

/// What invoking a handler of six parameters may yield: the parameters
/// are extracted in declared order, each from what the one before it left;
/// the first rejection ends the invocation, otherwise the handler runs on
/// the extracted values.
pub open spec fn outcome6<V, F, Res, T1, T2, T3, T4, T5, T6>(
    f: F,
    extensions: Map<u64, V>,
    r: Result<(), Errors>,
) -> bool where
    V: Tagged,
    F: FnOnce(T1, T2, T3, T4, T5, T6) -> Result<(), Res>,
    Res: IntoError,
    T1: FromMessage<V>,
    T2: FromMessage<V>,
    T3: FromMessage<V>,
    T4: FromMessage<V>,
    T5: FromMessage<V>,
    T6: FromMessage<V>,
 {
    extracted::<V, T1>(extensions, r, |a1: T1, m1: Map<u64, V>|
        extracted::<V, T2>(m1, r, |a2: T2, m2: Map<u64, V>|
            extracted::<V, T3>(m2, r, |a3: T3, m3: Map<u64, V>|
                extracted::<V, T4>(m3, r, |a4: T4, m4: Map<u64, V>|
                    extracted::<V, T5>(m4, r, |a5: T5, m5: Map<u64, V>|
                        extracted::<V, T6>(m5, r, |a6: T6, m6: Map<u64, V>|
                            exists|res: Result<(), Res>|
                                #[trigger] call_ensures(f, (a1, a2, a3, a4, a5, a6), res)
                                    && settled(res, r)))))))
}

impl<V, F, Res, T1, T2, T3, T4, T5, T6> Command<V, (T1, T2, T3, T4, T5, T6)> for F where
    V: Tagged,
    F: FnOnce(T1, T2, T3, T4, T5, T6) -> Result<(), Res>,
    Res: IntoError,
    T1: FromMessage<V>,
    T2: FromMessage<V>,
    T3: FromMessage<V>,
    T4: FromMessage<V>,
    T5: FromMessage<V>,
    T6: FromMessage<V>,
 {
    type Sealed = Hidden;

    open spec fn ready(&self) -> bool {
        ready6::<F, Res, T1, T2, T3, T4, T5, T6>(*self)
    }

    open spec fn outcome(&self, extensions: Map<u64, V>, r: Result<(), Errors>) -> bool {
        outcome6::<V, F, Res, T1, T2, T3, T4, T5, T6>(*self, extensions, r)
    }

    fn call(self, msg: Message<V>) -> (r: Result<(), Errors>) {
        let mut msg = MessageParts::new(msg);
        let a1 = match T1::from_message(&mut msg) {
            Ok(value) => value,
            Err(rejection) => return Err(rejection.into_error()),
        };
        let a2 = match T2::from_message(&mut msg) {
            Ok(value) => value,
            Err(rejection) => return Err(rejection.into_error()),
        };
        let a3 = match T3::from_message(&mut msg) {
            Ok(value) => value,
            Err(rejection) => return Err(rejection.into_error()),
        };
        let a4 = match T4::from_message(&mut msg) {
            Ok(value) => value,
            Err(rejection) => return Err(rejection.into_error()),
        };
        let a5 = match T5::from_message(&mut msg) {
            Ok(value) => value,
            Err(rejection) => return Err(rejection.into_error()),
        };
        let a6 = match T6::from_message(&mut msg) {
            Ok(value) => value,
            Err(rejection) => return Err(rejection.into_error()),
        };
        match self(a1, a2, a3, a4, a5, a6) {
            Ok(_) => Ok(()),
            Err(failure) => Err(failure.into_error()),
        }
    }
}

/// For a handler of six parameters, `Command::ready` is `ready6` and
/// `Command::outcome` is `outcome6`.
pub proof fn lemma_command6<V, F, Res, T1, T2, T3, T4, T5, T6>(f: F) where
    V: Tagged,
    F: FnOnce(T1, T2, T3, T4, T5, T6) -> Result<(), Res>,
    Res: IntoError,
    T1: FromMessage<V>,
    T2: FromMessage<V>,
    T3: FromMessage<V>,
    T4: FromMessage<V>,
    T5: FromMessage<V>,
    T6: FromMessage<V>,

    ensures
        Command::<V, (T1, T2, T3, T4, T5, T6)>::ready(&f)
            == ready6::<F, Res, T1, T2, T3, T4, T5, T6>(f),
        forall|extensions: Map<u64, V>, r: Result<(), Errors>|
            #[trigger] Command::<V, (T1, T2, T3, T4, T5, T6)>::outcome(&f, extensions, r)
                == outcome6::<V, F, Res, T1, T2, T3, T4, T5, T6>(f, extensions, r),
{
}

/// A handler of seven parameters accepts whatever its extractors yield.
pub open spec fn ready7<F, Res, T1, T2, T3, T4, T5, T6, T7>(f: F) -> bool where
    F: FnOnce(T1, T2, T3, T4, T5, T6, T7) -> Result<(), Res>,
 {
    forall|a1: T1, a2: T2, a3: T3, a4: T4, a5: T5, a6: T6, a7: T7|
        call_requires(f, (a1, a2, a3, a4, a5, a6, a7))
}

/// What invoking a handler of seven parameters may yield: the parameters
/// are extracted in declared order, each from what the one before it left;
/// the first rejection ends the invocation, otherwise the handler runs on
/// the extracted values.
pub open spec fn outcome7<V, F, Res, T1, T2, T3, T4, T5, T6, T7>(
    f: F,
    extensions: Map<u64, V>,
    r: Result<(), Errors>,
) -> bool where
    V: Tagged,
    F: FnOnce(T1, T2, T3, T4, T5, T6, T7) -> Result<(), Res>,
    Res: IntoError,
    T1: FromMessage<V>,
    T2: FromMessage<V>,
    T3: FromMessage<V>,
    T4: FromMessage<V>,
    T5: FromMessage<V>,
    T6: FromMessage<V>,
    T7: FromMessage<V>,
 {
    extracted::<V, T1>(extensions, r, |a1: T1, m1: Map<u64, V>|
        extracted::<V, T2>(m1, r, |a2: T2, m2: Map<u64, V>|
            extracted::<V, T3>(m2, r, |a3: T3, m3: Map<u64, V>|
                extracted::<V, T4>(m3, r, |a4: T4, m4: Map<u64, V>|
                    extracted::<V, T5>(m4, r, |a5: T5, m5: Map<u64, V>|
                        extracted::<V, T6>(m5, r, |a6: T6, m6: Map<u64, V>|
                            extracted::<V, T7>(m6, r, |a7: T7, m7: Map<u64, V>|
                                exists|res: Result<(), Res>|
                                    #[trigger] call_ensures(f, (a1, a2, a3, a4, a5, a6, a7), res)
                                        && settled(res, r))))))))
}

impl<V, F, Res, T1, T2, T3, T4, T5, T6, T7> Command<V, (T1, T2, T3, T4, T5, T6, T7)> for F where
    V: Tagged,
    F: FnOnce(T1, T2, T3, T4, T5, T6, T7) -> Result<(), Res>,
    Res: IntoError,
    T1: FromMessage<V>,
    T2: FromMessage<V>,
    T3: FromMessage<V>,
    T4: FromMessage<V>,
    T5: FromMessage<V>,
    T6: FromMessage<V>,
    T7: FromMessage<V>,
 {
    type Sealed = Hidden;

    open spec fn ready(&self) -> bool {
        ready7::<F, Res, T1, T2, T3, T4, T5, T6, T7>(*self)
    }

    open spec fn outcome(&self, extensions: Map<u64, V>, r: Result<(), Errors>) -> bool {
        outcome7::<V, F, Res, T1, T2, T3, T4, T5, T6, T7>(*self, extensions, r)
    }

    fn call(self, msg: Message<V>) -> (r: Result<(), Errors>) {
        let mut msg = MessageParts::new(msg);
        let a1 = match T1::from_message(&mut msg) {
            Ok(value) => value,
            Err(rejection) => return Err(rejection.into_error()),
        };
        let a2 = match T2::from_message(&mut msg) {
            Ok(value) => value,
            Err(rejection) => return Err(rejection.into_error()),
        };
        let a3 = match T3::from_message(&mut msg) {
            Ok(value) => value,
            Err(rejection) => return Err(rejection.into_error()),
        };
        let a4 = match T4::from_message(&mut msg) {
            Ok(value) => value,
            Err(rejection) => return Err(rejection.into_error()),
        };
        let a5 = match T5::from_message(&mut msg) {
            Ok(value) => value,
            Err(rejection) => return Err(rejection.into_error()),
        };
        let a6 = match T6::from_message(&mut msg) {
            Ok(value) => value,
            Err(rejection) => return Err(rejection.into_error()),
        };
        let a7 = match T7::from_message(&mut msg) {
            Ok(value) => value,
            Err(rejection) => return Err(rejection.into_error()),
        };
        match self(a1, a2, a3, a4, a5, a6, a7) {
            Ok(_) => Ok(()),
            Err(failure) => Err(failure.into_error()),
        }
    }
}

/// For a handler of seven parameters, `Command::ready` is `ready7` and
/// `Command::outcome` is `outcome7`.
pub proof fn lemma_command7<V, F, Res, T1, T2, T3, T4, T5, T6, T7>(f: F) where
    V: Tagged,
    F: FnOnce(T1, T2, T3, T4, T5, T6, T7) -> Result<(), Res>,
    Res: IntoError,
    T1: FromMessage<V>,
    T2: FromMessage<V>,
    T3: FromMessage<V>,
    T4: FromMessage<V>,
    T5: FromMessage<V>,
    T6: FromMessage<V>,
    T7: FromMessage<V>,

    ensures
        Command::<V, (T1, T2, T3, T4, T5, T6, T7)>::ready(&f)
            == ready7::<F, Res, T1, T2, T3, T4, T5, T6, T7>(f),
        forall|extensions: Map<u64, V>, r: Result<(), Errors>|
            #[trigger] Command::<V, (T1, T2, T3, T4, T5, T6, T7)>::outcome(&f, extensions, r)
                == outcome7::<V, F, Res, T1, T2, T3, T4, T5, T6, T7>(f, extensions, r),
{
}

/// A handler of eight parameters accepts whatever its extractors yield.
pub open spec fn ready8<F, Res, T1, T2, T3, T4, T5, T6, T7, T8>(f: F) -> bool where
    F: FnOnce(T1, T2, T3, T4, T5, T6, T7, T8) -> Result<(), Res>,
 {
    forall|a1: T1, a2: T2, a3: T3, a4: T4, a5: T5, a6: T6, a7: T7, a8: T8|
        call_requires(f, (a1, a2, a3, a4, a5, a6, a7, a8))
}

/// What invoking a handler of eight parameters may yield: the parameters
/// are extracted in declared order, each from what the one before it left;
/// the first rejection ends the invocation, otherwise the handler runs on
/// the extracted values.
pub open spec fn outcome8<V, F, Res, T1, T2, T3, T4, T5, T6, T7, T8>(
    f: F,
    extensions: Map<u64, V>,
    r: Result<(), Errors>,
) -> bool where
    V: Tagged,
    F: FnOnce(T1, T2, T3, T4, T5, T6, T7, T8) -> Result<(), Res>,
    Res: IntoError,
    T1: FromMessage<V>,
    T2: FromMessage<V>,
    T3: FromMessage<V>,
    T4: FromMessage<V>,
    T5: FromMessage<V>,
    T6: FromMessage<V>,
    T7: FromMessage<V>,
    T8: FromMessage<V>,
 {
    extracted::<V, T1>(extensions, r, |a1: T1, m1: Map<u64, V>|
        extracted::<V, T2>(m1, r, |a2: T2, m2: Map<u64, V>|
            extracted::<V, T3>(m2, r, |a3: T3, m3: Map<u64, V>|
                extracted::<V, T4>(m3, r, |a4: T4, m4: Map<u64, V>|
                    extracted::<V, T5>(m4, r, |a5: T5, m5: Map<u64, V>|
                        extracted::<V, T6>(m5, r, |a6: T6, m6: Map<u64, V>|
                            extracted::<V, T7>(m6, r, |a7: T7, m7: Map<u64, V>|
                                extracted::<V, T8>(m7, r, |a8: T8, m8: Map<u64, V>|
                                    exists|res: Result<(), Res>|
                                        #[trigger] call_ensures(f, (a1, a2, a3, a4, a5, a6, a7, a8), res)
                                            && settled(res, r)))))))))
}

impl<V, F, Res, T1, T2, T3, T4, T5, T6, T7, T8> Command<
    V,
    (T1, T2, T3, T4, T5, T6, T7, T8),
> for F where
    V: Tagged,
    F: FnOnce(T1, T2, T3, T4, T5, T6, T7, T8) -> Result<(), Res>,
    Res: IntoError,
    T1: FromMessage<V>,
    T2: FromMessage<V>,
    T3: FromMessage<V>,
    T4: FromMessage<V>,
    T5: FromMessage<V>,
    T6: FromMessage<V>,
    T7: FromMessage<V>,
    T8: FromMessage<V>,
 {
    type Sealed = Hidden;

    open spec fn ready(&self) -> bool {
        ready8::<F, Res, T1, T2, T3, T4, T5, T6, T7, T8>(*self)
    }

    open spec fn outcome(&self, extensions: Map<u64, V>, r: Result<(), Errors>) -> bool {
        outcome8::<V, F, Res, T1, T2, T3, T4, T5, T6, T7, T8>(*self, extensions, r)
    }

    fn call(self, msg: Message<V>) -> (r: Result<(), Errors>) {
        let mut msg = MessageParts::new(msg);
        let a1 = match T1::from_message(&mut msg) {
            Ok(value) => value,
            Err(rejection) => return Err(rejection.into_error()),
        };
        let a2 = match T2::from_message(&mut msg) {
            Ok(value) => value,
            Err(rejection) => return Err(rejection.into_error()),
        };
        let a3 = match T3::from_message(&mut msg) {
            Ok(value) => value,
            Err(rejection) => return Err(rejection.into_error()),
        };
        let a4 = match T4::from_message(&mut msg) {
            Ok(value) => value,
            Err(rejection) => return Err(rejection.into_error()),
        };
        let a5 = match T5::from_message(&mut msg) {
            Ok(value) => value,
            Err(rejection) => return Err(rejection.into_error()),
        };
        let a6 = match T6::from_message(&mut msg) {
            Ok(value) => value,
            Err(rejection) => return Err(rejection.into_error()),
        };
        let a7 = match T7::from_message(&mut msg) {
            Ok(value) => value,
            Err(rejection) => return Err(rejection.into_error()),
        };
        let a8 = match T8::from_message(&mut msg) {
            Ok(value) => value,
            Err(rejection) => return Err(rejection.into_error()),
        };
        match self(a1, a2, a3, a4, a5, a6, a7, a8) {
            Ok(_) => Ok(()),
            Err(failure) => Err(failure.into_error()),
        }
    }
}

/// For a handler of eight parameters, `Command::ready` is `ready8` and
/// `Command::outcome` is `outcome8`.
pub proof fn lemma_command8<V, F, Res, T1, T2, T3, T4, T5, T6, T7, T8>(f: F) where
    V: Tagged,
    F: FnOnce(T1, T2, T3, T4, T5, T6, T7, T8) -> Result<(), Res>,
    Res: IntoError,
    T1: FromMessage<V>,
    T2: FromMessage<V>,
    T3: FromMessage<V>,
    T4: FromMessage<V>,
    T5: FromMessage<V>,
    T6: FromMessage<V>,
    T7: FromMessage<V>,
    T8: FromMessage<V>,

    ensures
        Command::<V, (T1, T2, T3, T4, T5, T6, T7, T8)>::ready(&f)
            == ready8::<F, Res, T1, T2, T3, T4, T5, T6, T7, T8>(f),
        forall|extensions: Map<u64, V>, r: Result<(), Errors>|
            #[trigger] Command::<V, (T1, T2, T3, T4, T5, T6, T7, T8)>::outcome(&f, extensions, r)
                == outcome8::<V, F, Res, T1, T2, T3, T4, T5, T6, T7, T8>(f, extensions, r),
{
}

} // verus!

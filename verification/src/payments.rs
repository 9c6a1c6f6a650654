//! The payment store: creation with its defaults, and the status view.
//! Status transitions are out of scope: a payment is created `pending`
//! and only read back.

use vstd::prelude::*;
use crate::errors::AppError;
use crate::present::{payment_status_display, payment_status_display_of};
use crate::records::{CreatePayment, Instant, Payment, PaymentStatusResponse};
use crate::store::{
    eq_categories, eq_chat, eq_procurement_side, eq_sessions, eq_users, Store,
};

verus! {

impl Store {
    /// Creates a payment record: status starts `pending`, provider and
    /// confirmation fields empty, metadata the empty JSON object.
    pub fn create_payment(&mut self, req: &CreatePayment, now: Instant) -> (r: Result<
        Payment,
        AppError,
    >)
        requires
            old(self).wf(),
        ensures
            final(self).wf(),
            match r {
                Result::Err(e) => {
                    &&& e == AppError::StorageFull
                    &&& old(self).next_payment_id == i32::MAX
                    &&& *final(self) == *old(self)
                },
                Result::Ok(p) => {
                    &&& old(self).next_payment_id < i32::MAX
                    &&& p.id == old(self).next_payment_id
                    &&& p.user_id == req.user_id
                    &&& p.payment_type == req.payment_type
                    &&& p.amount == req.amount
                    &&& p.status@ == "pending"@
                    &&& p.external_id is None
                    &&& p.provider@ == Seq::<char>::empty()
                    &&& p.confirmation_url@ == Seq::<char>::empty()
                    &&& p.procurement_id == req.procurement_id
                    &&& p.description@ == (match req.description {
                        Option::Some(d) => d@,
                        Option::None => Seq::<char>::empty(),
                    })
                    &&& p.metadata@ == "{}"@
                    &&& p.paid_at is None
                    &&& p.created_at == now
                    &&& p.updated_at == now
                    &&& final(self).payments@ =~= old(self).payments@.push(p)
                    &&& final(self).next_payment_id == old(self).next_payment_id + 1
                    &&& final(self).transactions@ == old(self).transactions@
                    &&& final(self).next_transaction_id == old(self).next_transaction_id
                    &&& eq_procurement_side(*final(self), *old(self))
                    &&& eq_users(*final(self), *old(self))
                    &&& eq_categories(*final(self), *old(self))
                    &&& eq_chat(*final(self), *old(self))
                    &&& eq_sessions(*final(self), *old(self))
                },
            },
    {
        if self.next_payment_id == i32::MAX {
            return Result::Err(AppError::StorageFull);
        }
        let id = self.next_payment_id;
        let p = Payment {
            id,
            user_id: req.user_id,
            payment_type: req.payment_type.clone(),
            amount: req.amount,
            status: "pending".to_owned(),
            external_id: Option::None,
            provider: String::new(),
            confirmation_url: String::new(),
            procurement_id: req.procurement_id,
            description: match &req.description {
                Option::Some(d) => d.clone(),
                Option::None => String::new(),
            },
            metadata: "{}".to_owned(),
            paid_at: Option::None,
            created_at: now,
            updated_at: now,
        };
        let result = p.duplicate();
        self.payments.push(p);
        self.next_payment_id = id + 1;
        proof {
            assert(self.payment_ids() =~= old(self).payment_ids().push(id));
        }
        Result::Ok(result)
    }

    /// Reads a payment's status with its display label.
    pub fn get_payment_status(&self, id: i32) -> (r: Result<PaymentStatusResponse, AppError>)
        requires
            self.wf(),
        ensures
            match r {
                Result::Err(e) => e == AppError::NotFound && !self.has_payment(id),
                Result::Ok(resp) => ({
                    let p = self.payment_by_id(id);
                    &&& self.has_payment(id)
                    &&& resp.id == p.id
                    &&& resp.status == p.status
                    &&& resp.status_display@ == payment_status_display_of(p.status@)
                    &&& resp.amount == p.amount
                    &&& resp.confirmation_url == p.confirmation_url
                }),
            },
    {
        match self.find_payment(id) {
            Option::Some(i) => {
                let p = &self.payments[i];
                let label = payment_status_display(p.status.as_str());
                Result::Ok(PaymentStatusResponse {
                    id: p.id,
                    status: p.status.clone(),
                    status_display: label,
                    amount: p.amount,
                    confirmation_url: p.confirmation_url.clone(),
                })
            },
            Option::None => Result::Err(AppError::NotFound),
        }
    }
}

} // verus!

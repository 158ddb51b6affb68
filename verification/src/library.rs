//! A store held in memory.
//!
//! It keeps the three tables in row order and answers every `Query` as the
//! model in `crate::tables` says. It numbers loans and users itself: the id
//! of a new row is the numeral of its row number.

use crate::calendar::{Date, Timestamp};
use crate::custom_errors::app_error::StoreFault;
use crate::laws::lemma_unlent_book_has_no_active_loan;
use crate::tables::{holds_book, loans_of_user, LibraryView};
use crate::models::book::Book;
use crate::models::loan::Loan;
use crate::models::user::{NewUser, User};
use crate::persistence::{Query, QueryView, Reply, ReplyView};
use crate::text::decimal_string;
use vstd::prelude::*;

verus! {

/// The tables of a library and its clock, in memory.
pub struct Library {
    books: Vec<Book>,
    loans: Vec<Loan>,
    users: Vec<User>,
    today: Date,
    now: Timestamp,
}

impl View for Library {
    type V = LibraryView;

    closed spec fn view(&self) -> LibraryView {
        LibraryView {
            books: self.books.deep_view(),
            loans: self.loans.deep_view(),
            users: self.users.deep_view(),
            today: self.today,
            now: self.now,
        }
    }
}

impl Library {
    /// Every store in memory obeys the rules of the model, at all times.
    #[verifier::type_invariant]
    pub open spec fn rules(self) -> bool {
        self@.wf()
    }

    /// An empty store whose clock stands at day 0.
    pub fn new() -> (library: Library)
        ensures
            library@.wf(),
            library@.consistent(),
            library@ == (LibraryView {
                books: Seq::empty(),
                loans: Seq::empty(),
                users: Seq::empty(),
                today: Date { days: 0 },
                now: Timestamp { micros: 0 },
            }),
    {
        let library = Library {
            books: Vec::new(),
            loans: Vec::new(),
            users: Vec::new(),
            today: Date { days: 0 },
            now: Timestamp { micros: 0 },
        };
        assert(library@.books =~= Seq::empty());
        assert(library@.loans =~= Seq::empty());
        assert(library@.users =~= Seq::empty());
        library
    }

    /// Moves the tables out and leaves an empty store behind, so that a row
    /// can be written while no rule is checked against a half-written table.
    fn take(&mut self) -> (taken: Library)
        ensures
            taken@ == old(self)@,
            taken.books == old(self).books,
            taken.loans == old(self).loans,
            taken.users == old(self).users,
    {
        let mut taken = Library::new();
        core::mem::swap(self, &mut taken);
        taken
    }

    /// Sets the clock, unless a loan made on `today` would fall due on a day
    /// that a `Date` cannot hold.
    pub fn set_clock(&mut self, today: Date, now: Timestamp) -> (accepted: bool)
        ensures
            old(self)@.wf(),
            final(self)@.wf(),
            accepted == today.can_start_loan(),
            accepted ==> final(self)@ == (LibraryView { today, now, ..old(self)@ }),
            !accepted ==> final(self)@ == old(self)@,
    {
        proof {
            use_type_invariant(&*self);
        }
        if today.loan_deadline().is_none() {
            return false;
        }
        self.today = today;
        self.now = now;
        true
    }

    /// Takes `book` into the catalogue, unless a book with its id is there.
    pub fn add_book(&mut self, book: Book) -> (added: bool)
        ensures
            old(self)@.wf(),
            final(self)@.wf(),
            added == !old(self)@.has_book(book.book_id),
            added ==> final(self)@ == (LibraryView {
                books: old(self)@.books.push(book@),
                ..old(self)@
            }),
            !added ==> final(self)@ == old(self)@,
            old(self)@.consistent() && !book.is_loaned ==> final(self)@.consistent(),
    {
        proof {
            use_type_invariant(&*self);
        }
        if self.find_book(book.book_id).is_some() {
            return false;
        }
        proof {
            let before = self@;
            let books = self.books@.push(book);
            let after = LibraryView { books: before.books.push(book@), ..before };
            assert(Seq::new(books.len(), |k: int| books[k].deep_view()) =~= after.books);
            assert forall|i: int| 0 <= i < after.loans.len() implies holds_book(
                after.books,
                (#[trigger] after.loans[i]).book_id,
            ) by {
                let id = before.loans[i].book_id;
                let k = choose|k: int| 0 <= k < before.books.len() && before.books[k].book_id == id;
                assert(after.books[k].book_id == id);
            }
            if before.consistent() && !book.is_loaned {
                lemma_unlent_book_has_no_active_loan(before.loans, book.book_id);
            }
        }
        let Library { mut books, loans, users, today, now } = self.take();
        books.push(book);
        *self = Library { books, loans, users, today, now };
        true
    }

    /// The row number of the book `id`, if the catalogue has it.
    fn find_book(&self, id: i32) -> (found: Option<usize>)
        ensures
            found is Some <==> self@.has_book(id),
            found is Some ==> found->0 == self@.book_index(id) && found->0 < self.books.len(),
    {
        proof {
            use_type_invariant(self);
        }
        let mut i: usize = 0;
        while i < self.books.len()
            invariant
                i <= self.books.len(),
                self@.wf(),
                forall|j: int| 0 <= j < i ==> self@.books[j].book_id != id,
            decreases self.books.len() - i,
        {
            if self.books[i].book_id == id {
                proof {
                    self@.lemma_book_row(i as int);
                }
                return Some(i);
            }
            i += 1;
        }
        None
    }

    /// The row number of the loan `id`, if there is such a loan.
    fn find_loan(&self, id: &String) -> (found: Option<usize>)
        ensures
            found is Some <==> self@.has_loan(id@),
            found is Some ==> found->0 == self@.loan_index(id@) && found->0 < self.loans.len(),
    {
        proof {
            use_type_invariant(self);
        }
        let mut i: usize = 0;
        while i < self.loans.len()
            invariant
                i <= self.loans.len(),
                self@.wf(),
                forall|j: int| 0 <= j < i ==> self@.loans[j].id != id@,
            decreases self.loans.len() - i,
        {
            if self.loans[i].id == *id {
                proof {
                    self@.lemma_loan_row(i as int);
                }
                return Some(i);
            }
            i += 1;
        }
        None
    }

    /// The row number of the user `id`, if there is such a user.
    fn find_user(&self, id: &String) -> (found: Option<usize>)
        ensures
            found is Some <==> self@.has_user(id@),
            found is Some ==> found->0 == self@.user_index(id@) && found->0 < self.users.len(),
    {
        proof {
            use_type_invariant(self);
        }
        let mut i: usize = 0;
        while i < self.users.len()
            invariant
                i <= self.users.len(),
                self@.wf(),
                forall|j: int| 0 <= j < i ==> self@.users[j].id != id@,
            decreases self.users.len() - i,
        {
            if self.users[i].id == *id {
                proof {
                    self@.lemma_user_row(i as int);
                }
                return Some(i);
            }
            i += 1;
        }
        None
    }

    /// The row number of the user with the address `email`, if there is one.
    fn find_email(&self, email: &String) -> (found: Option<usize>)
        ensures
            found is Some <==> self@.has_email(email@),
            found is Some ==> found->0 == self@.email_index(email@) && found->0 < self.users.len(),
    {
        proof {
            use_type_invariant(self);
        }
        let mut i: usize = 0;
        while i < self.users.len()
            invariant
                i <= self.users.len(),
                self@.wf(),
                forall|j: int| 0 <= j < i ==> self@.users[j].email != email@,
            decreases self.users.len() - i,
        {
            if self.users[i].email == *email {
                proof {
                    self@.lemma_email_row(i as int);
                }
                return Some(i);
            }
            i += 1;
        }
        None
    }

    fn list_books(&self, limit: usize) -> (rows: Vec<Book>)
        ensures
            rows.deep_view() == if limit < self@.books.len() {
                self@.books.take(limit as int)
            } else {
                self@.books
            },
    {
        let count = if limit < self.books.len() {
            limit
        } else {
            self.books.len()
        };
        let mut rows: Vec<Book> = Vec::new();
        let mut i: usize = 0;
        while i < count
            invariant
                i <= count <= self.books.len(),
                rows.deep_view() =~= self@.books.take(i as int),
            decreases count - i,
        {
            rows.push(self.books[i].clone());
            proof {
                assert(self@.books.take(i + 1) =~= self@.books.take(i as int).push(
                    self@.books[i as int],
                ));
            }
            i += 1;
        }
        rows
    }

    fn list_loans(&self) -> (rows: Vec<Loan>)
        ensures
            rows.deep_view() == self@.loans,
    {
        let mut rows: Vec<Loan> = Vec::new();
        let mut i: usize = 0;
        while i < self.loans.len()
            invariant
                i <= self.loans.len(),
                rows.deep_view() =~= self@.loans.take(i as int),
            decreases self.loans.len() - i,
        {
            rows.push(self.loans[i].clone());
            proof {
                assert(self@.loans.take(i + 1) =~= self@.loans.take(i as int).push(
                    self@.loans[i as int],
                ));
            }
            i += 1;
        }
        rows
    }

    fn list_users(&self) -> (rows: Vec<User>)
        ensures
            rows.deep_view() == self@.users,
    {
        let mut rows: Vec<User> = Vec::new();
        let mut i: usize = 0;
        while i < self.users.len()
            invariant
                i <= self.users.len(),
                rows.deep_view() =~= self@.users.take(i as int),
            decreases self.users.len() - i,
        {
            rows.push(self.users[i].clone());
            proof {
                assert(self@.users.take(i + 1) =~= self@.users.take(i as int).push(
                    self@.users[i as int],
                ));
            }
            i += 1;
        }
        rows
    }

    fn loans_of(&self, user_id: &String) -> (rows: Vec<Loan>)
        ensures
            rows.deep_view() == loans_of_user(self@.loans, user_id@),
    {
        let mut rows: Vec<Loan> = Vec::new();
        let mut i: usize = 0;
        while i < self.loans.len()
            invariant
                i <= self.loans.len(),
                rows.deep_view() =~= loans_of_user(self@.loans.take(i as int), user_id@),
            decreases self.loans.len() - i,
        {
            proof {
                let next = self@.loans.take(i + 1);
                assert(next.drop_last() =~= self@.loans.take(i as int));
            }
            if self.loans[i].user_id == *user_id {
                rows.push(self.loans[i].clone());
            }
            i += 1;
        }
        assert(self@.loans.take(self@.loans.len() as int) =~= self@.loans);
        rows
    }

    fn book_by_id(&self, id: i32) -> (rows: Vec<Book>)
        ensures
            rows.deep_view() == if self@.has_book(id) {
                seq![self@.book(id)]
            } else {
                Seq::empty()
            },
    {
        let mut rows: Vec<Book> = Vec::new();
        if let Some(i) = self.find_book(id) {
            rows.push(self.books[i].clone());
        }
        rows
    }

    fn loan_by_id(&self, id: &String) -> (rows: Vec<Loan>)
        ensures
            rows.deep_view() == if self@.has_loan(id@) {
                seq![self@.loan(id@)]
            } else {
                Seq::empty()
            },
    {
        let mut rows: Vec<Loan> = Vec::new();
        if let Some(i) = self.find_loan(id) {
            rows.push(self.loans[i].clone());
        }
        rows
    }

    fn user_by_id(&self, id: &String) -> (rows: Vec<User>)
        ensures
            rows.deep_view() == if self@.has_user(id@) {
                seq![self@.user(id@)]
            } else {
                Seq::empty()
            },
    {
        let mut rows: Vec<User> = Vec::new();
        if let Some(i) = self.find_user(id) {
            rows.push(self.users[i].clone());
        }
        rows
    }

    fn user_by_email(&self, email: &String) -> (rows: Vec<User>)
        ensures
            rows.deep_view() == if self@.has_email(email@) {
                seq![self@.user_by_email(email@)]
            } else {
                Seq::empty()
            },
    {
        let mut rows: Vec<User> = Vec::new();
        if let Some(i) = self.find_email(email) {
            rows.push(self.users[i].clone());
        }
        rows
    }

    fn set_book_loaned(&mut self, book_id: i32, loaned: bool) -> (count: usize)
        ensures
            final(self)@ == old(self)@.answer(
                QueryView::SetBookLoaned { book_id, loaned },
            ).0,
            ReplyView::Affected(count) == old(self)@.answer(
                QueryView::SetBookLoaned { book_id, loaned },
            ).1,
    {
        proof {
            use_type_invariant(&*self);
            self@.lemma_answer_keeps_rules(
                QueryView::SetBookLoaned { book_id, loaned },
            );
        }
        match self.find_book(book_id) {
            Some(i) => {
                let mut row = self.books[i].clone();
                row.is_loaned = loaned;
                proof {
                    let books = self.books@.update(i as int, row);
                    assert(Seq::new(books.len(), |k: int| books[k].deep_view())
                        =~= self@.with_book_loaned(book_id, loaned).books);
                }
                let Library { mut books, loans, users, today, now } = self.take();
                books.set(i, row);
                *self = Library { books, loans, users, today, now };
                1
            },
            None => 0,
        }
    }

    fn mark_loan_returned(&mut self, loan_id: &String) -> (count: usize)
        ensures
            final(self)@ == old(self)@.answer(
                QueryView::MarkLoanReturned(loan_id@),
            ).0,
            ReplyView::Affected(count) == old(self)@.answer(
                QueryView::MarkLoanReturned(loan_id@),
            ).1,
    {
        proof {
            use_type_invariant(&*self);
            self@.lemma_answer_keeps_rules(
                QueryView::MarkLoanReturned(loan_id@),
            );
        }
        match self.find_loan(loan_id) {
            Some(i) => {
                if self.loans[i].is_returned {
                    return 0;
                }
                let mut row = self.loans[i].clone();
                row.is_returned = true;
                proof {
                    let loans = self.loans@.update(i as int, row);
                    assert(Seq::new(loans.len(), |k: int| loans[k].deep_view())
                        =~= self@.with_loan_returned(loan_id@).loans);
                }
                let Library { books, mut loans, users, today, now } = self.take();
                loans.set(i, row);
                *self = Library { books, loans, users, today, now };
                1
            },
            None => 0,
        }
    }

    fn mark_user_deleted(&mut self, user_id: &String) -> (count: usize)
        ensures
            final(self)@ == old(self)@.answer(
                QueryView::MarkUserDeleted(user_id@),
            ).0,
            ReplyView::Affected(count) == old(self)@.answer(
                QueryView::MarkUserDeleted(user_id@),
            ).1,
    {
        proof {
            use_type_invariant(&*self);
            self@.lemma_answer_keeps_rules(
                QueryView::MarkUserDeleted(user_id@),
            );
        }
        match self.find_user(user_id) {
            Some(i) => {
                let mut row = self.users[i].clone();
                row.is_deleted = true;
                proof {
                    let users = self.users@.update(i as int, row);
                    assert(Seq::new(users.len(), |k: int| users[k].deep_view())
                        =~= self@.with_user_deleted(user_id@).users);
                }
                let Library { books, loans, mut users, today, now } = self.take();
                users.set(i, row);
                *self = Library { books, loans, users, today, now };
                1
            },
            None => 0,
        }
    }

    fn insert_loan(&mut self, book_id: i32, user_id: &String) -> (reply: Reply)
        ensures
            final(self)@ == old(self)@.answer(
                QueryView::InsertLoan { book_id, user_id: user_id@ },
            ).0,
            reply@ == old(self)@.answer(
                QueryView::InsertLoan { book_id, user_id: user_id@ },
            ).1,
    {
        proof {
            use_type_invariant(&*self);
            self@.lemma_answer_keeps_rules(
                QueryView::InsertLoan { book_id, user_id: user_id@ },
            );
        }
        if self.find_book(book_id).is_none() || self.find_user(user_id).is_none() {
            return Reply::Failed(StoreFault::DatabaseError);
        }
        let due = match self.today.loan_deadline() {
            Some(due) => due,
            None => {
                return Reply::Failed(StoreFault::DatabaseError);
            },
        };
        let row = Loan {
            id: decimal_string(self.loans.len() as u64),
            book_id,
            user_id: user_id.clone(),
            loan_date: self.today,
            return_deadline: due,
            is_returned: false,
            created_at: self.now,
            updated_at: self.now,
        };
        let mut rows: Vec<Loan> = Vec::new();
        rows.push(row.clone());
        proof {
            assert(rows.deep_view() =~= seq![row@]);
            let loans = self.loans@.push(row);
            assert(Seq::new(loans.len(), |k: int| loans[k].deep_view()) =~= self@.loans.push(
                row@,
            ));
        }
        let Library { books, mut loans, users, today, now } = self.take();
        loans.push(row);
        *self = Library { books, loans, users, today, now };
        Reply::Loans(rows)
    }

    fn insert_user(&mut self, user: &NewUser) -> (reply: Reply)
        ensures
            final(self)@ == old(self)@.answer(QueryView::InsertUser(user@)).0,
            reply@ == old(self)@.answer(QueryView::InsertUser(user@)).1,
    {
        proof {
            use_type_invariant(&*self);
            self@.lemma_answer_keeps_rules(QueryView::InsertUser(user@));
        }
        if self.find_email(&user.email).is_some() {
            return Reply::Failed(StoreFault::DatabaseError);
        }
        let row = User {
            id: decimal_string(self.users.len() as u64),
            first_name: user.first_name.clone(),
            last_name: user.last_name.clone(),
            email: user.email.clone(),
            pass: user.pass.clone(),
            is_admin: user.is_admin,
            created_at: self.now,
            updated_at: self.now,
            is_deleted: false,
        };
        let mut rows: Vec<User> = Vec::new();
        rows.push(row.clone());
        proof {
            assert(rows.deep_view() =~= seq![row@]);
            let users = self.users@.push(row);
            assert(Seq::new(users.len(), |k: int| users[k].deep_view()) =~= self@.users.push(
                row@,
            ));
        }
        let Library { books, loans, mut users, today, now } = self.take();
        users.push(row);
        *self = Library { books, loans, users, today, now };
        Reply::Users(rows)
    }

    /// Carries out one call and says what came of it.
    pub fn answer(&mut self, query: &Query) -> (reply: Reply)
        ensures
            old(self)@.wf(),
            final(self)@.wf(),
            final(self)@ == old(self)@.answer(query@).0,
            reply@ == old(self)@.answer(query@).1,
    {
        proof {
            use_type_invariant(&*self);
            self@.lemma_answer_keeps_rules(query@);
        }
        match query {
            Query::ListBooks { limit } => Reply::Books(self.list_books(*limit)),
            Query::BookById(id) | Query::LockBook(id) => Reply::Books(self.book_by_id(*id)),
            Query::BooksLike { column, pattern } => Reply::Failed(StoreFault::QueryBuilderError),
            Query::SetBookLoaned { book_id, loaned } => Reply::Affected(
                self.set_book_loaned(*book_id, *loaned),
            ),
            Query::ListLoans => Reply::Loans(self.list_loans()),
            Query::LoanById(id) | Query::LockLoan(id) => Reply::Loans(self.loan_by_id(id)),
            Query::LoansOfUser(id) => Reply::Loans(self.loans_of(id)),
            Query::MarkLoanReturned(id) => Reply::Affected(self.mark_loan_returned(id)),
            Query::InsertLoan { book_id, user_id } => self.insert_loan(*book_id, user_id),
            Query::ListUsers => Reply::Users(self.list_users()),
            Query::UserById(id) => Reply::Users(self.user_by_id(id)),
            Query::UserByEmail(email) => Reply::Users(self.user_by_email(email)),
            Query::MarkUserDeleted(id) => Reply::Affected(self.mark_user_deleted(id)),
            Query::InsertUser(user) => self.insert_user(user),
            Query::Today => Reply::Today(self.today),
        }
    }
}

} // verus!

# bookshelf

A personal book collection service: authors and books stored in SQLite,
served over HTTP, and browsed from a web client.

`src/` is the verified library. It holds the records (`model`), the rules a
book must meet (`validation`), the decisions each author and book request
takes between its database steps (`authors`, `books`), the listing query with
its search, genre filter and sort order (`listing`), the statements that
write books (`statements`), the errors requests are
answered with (`error`), the string facts it all rests on (`text`), and the
browser client's logic: request addresses and failure messages (`client`),
forms and what they do once answered (`forms`), page addresses and the route
table (`pages`), deletion with its confirmation step (`deletion`), what pages
show (`display`) and the notice shown after an action (`toast`).

`app/` is the server program around it: the HTTP routes, the SQL they run,
the JSON and row types, and the database setup.

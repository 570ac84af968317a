# server_api

The verified core of an API server for end-to-end encrypted groups: the rules
and computations of the group, customer-app, captcha and user services, with
their contracts proved by Verus.

- `src/` — the library, verified:
  - `api_err`: error codes and the JSON error answer, with the status fallback.
  - `error`: the errors of the services.
  - `decimal`: decimal text of numbers, formatting and parsing.
  - `group`: rank checks, who becomes the first member of a new group and the
    rows a new group is stored with, how a member reaches a group,
    member-request checks.
  - `group_keys`: group keys kept in the external key storage: which ids to
    fetch, putting fetched keys back, splitting the keys of a new group, and
    reading them back as they were created.
  - `captcha`: making captchas and checking answers.
  - `customer_app`: which token of an app a request came with, the rows of a
    new app, the columns of its options.
  - `user`, `file`: stored records, their small rules and reading them from
    stored columns.
  - `paging`: the queries of paged lists.
  - `routes`: the route tables, stated route by route, their layering rule and
    their unique endpoints.
  - `ids`: random record ids (version 4 UUID text).
- `tests/` — tests of the library on concrete values.
- `app/` — the request side: the storage boundary, query texts, service flows,
  the registration of the route tables and the response of the HTTP framework.
